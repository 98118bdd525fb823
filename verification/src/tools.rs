//! The outside tools and what each is called with: the downloader, which
//! also searches the catalog, the player, and the sender of signals.

use vstd::prelude::*;
use crate::naming::{decimal, push_decimal};
use crate::protocol::Signal;
use crate::search::{build_search_term, search_term};

verus! {

/// The time between two looks for a stream file, in milliseconds.
pub const POLL_INTERVAL_MILLIS: u64 = 500;

/// The name of the downloader.
pub open spec fn downloader() -> Seq<char> {
    "yt-dlp"@
}

/// The name of the player.
pub open spec fn audio_player() -> Seq<char> {
    "ffplay"@
}

/// The name of the tool that sends signals.
pub open spec fn signaller() -> Seq<char> {
    "kill"@
}

/// What the downloader is called with to write the best audio of `url` to
/// `path` as an audio file.
pub open spec fn download_arguments(url: Seq<char>, path: Seq<char>) -> Seq<Seq<char>> {
    seq!["-f"@, "bestaudio"@, "-x"@, "--audio-format"@, "mp3"@, "-o"@, path, url]
}

/// What the downloader is called with to search the catalog for `query`:
/// one document for each entry found, none of them downloaded.
pub open spec fn search_arguments(query: Seq<char>) -> Seq<Seq<char>> {
    seq![search_term(query), "--flat-playlist"@, "--dump-json"@]
}

/// What the player is called with to play `path` without a window and to
/// exit at its end.
pub open spec fn player_arguments(path: Seq<char>) -> Seq<Seq<char>> {
    seq!["-nodisp"@, "-autoexit"@, path]
}

/// What the sender of signals is called with for `signal`: the signal's name
/// and the identifier of the process in decimal. A process is terminated
/// through its handle, not by this tool.
pub open spec fn signal_arguments(signal: Signal) -> Option<Seq<Seq<char>>> {
    match signal {
        Signal::Kill(_) => None,
        Signal::Suspend(id) => Some(seq!["-STOP"@, decimal(id as nat)]),
        Signal::Continue(id) => Some(seq!["-CONT"@, decimal(id as nat)]),
    }
}

/// The name of the downloader.
pub fn downloader_name() -> (r: String)
    ensures
        r@ == downloader(),
{
    String::from_str("yt-dlp")
}

/// The name of the player.
pub fn player_name() -> (r: String)
    ensures
        r@ == audio_player(),
{
    String::from_str("ffplay")
}

/// The name of the tool that sends signals.
pub fn signaller_name() -> (r: String)
    ensures
        r@ == signaller(),
{
    String::from_str("kill")
}

/// What the downloader is called with to write `url` to `path`.
pub fn build_download_arguments(url: &str, path: &str) -> (r: Vec<String>)
    ensures
        r.deep_view() == download_arguments(url@, path@),
{
    let mut r: Vec<String> = Vec::new();
    r.push(String::from_str("-f"));
    r.push(String::from_str("bestaudio"));
    r.push(String::from_str("-x"));
    r.push(String::from_str("--audio-format"));
    r.push(String::from_str("mp3"));
    r.push(String::from_str("-o"));
    r.push(String::from_str(path));
    r.push(String::from_str(url));
    r
}

/// What the downloader is called with to search the catalog for `query`.
pub fn build_search_arguments(query: &str) -> (r: Vec<String>)
    ensures
        r.deep_view() == search_arguments(query@),
{
    let mut r: Vec<String> = Vec::new();
    r.push(build_search_term(query));
    r.push(String::from_str("--flat-playlist"));
    r.push(String::from_str("--dump-json"));
    r
}

/// What the player is called with to play `path`.
pub fn build_player_arguments(path: &str) -> (r: Vec<String>)
    ensures
        r.deep_view() == player_arguments(path@),
{
    let mut r: Vec<String> = Vec::new();
    r.push(String::from_str("-nodisp"));
    r.push(String::from_str("-autoexit"));
    r.push(String::from_str(path));
    r
}

/// What the sender of signals is called with for `signal`.
pub fn build_signal_arguments(signal: Signal) -> (r: Option<Vec<String>>)
    ensures
        r.deep_view() == signal_arguments(signal),
{
    let (name, id) = match signal {
        Signal::Kill(_) => {
            return None;
        },
        Signal::Suspend(id) => ("-STOP", id),
        Signal::Continue(id) => ("-CONT", id),
    };
    let mut number = String::new();
    push_decimal(&mut number, id as u128);
    let mut r: Vec<String> = Vec::new();
    r.push(String::from_str(name));
    r.push(number);
    Some(r)
}

} // verus!
