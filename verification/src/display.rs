//! What the screen says of the state: shortened titles, the mark beside a
//! queued track, the line of the player, and which entries stand out.

use vstd::prelude::*;
use crate::app::{App, AppView, Mode};
use crate::protocol::{Status, StatusView};
use crate::text::{chars_of, contains, ends_with, has_infix, has_suffix, string_of, trim, trimmed};

verus! {

/// The longest title that is shown in full, in characters.
pub const TITLE_WIDTH: usize = 28;

/// `title` as a list shows it: in full if it fits, else cut to one character
/// less than the width, with an ellipsis behind.
pub open spec fn shortened(title: Seq<char>) -> Seq<char> {
    if title.len() > TITLE_WIDTH {
        title.take(TITLE_WIDTH - 1).push('\u{2026}')
    } else {
        title
    }
}

/// `title` as a list shows it.
pub fn short_title(title: &str) -> (r: String)
    ensures
        r@ == shortened(title@),
{
    let v = chars_of(title);
    if v.len() > TITLE_WIDTH {
        let mut r = string_of(&v, 0, TITLE_WIDTH - 1);
        r.push('\u{2026}');
        r
    } else {
        let r = string_of(&v, 0, v.len());
        r
    }
}

/// What a queued track is, as far as the screen tells.
#[derive(Debug, Clone, Copy, PartialEq, Eq)]
pub enum Mark {
    /// A track of the library.
    Library,
    /// A stream file that is there.
    Stream,
    /// Another file that is there.
    File,
    /// No file yet.
    Missing,
}

/// `path` looks like a stream file to the screen: an audio file with the
/// stream mark in its path, written with an underscore or with a hyphen.
pub open spec fn stream_like(path: Seq<char>) -> bool {
    ends_with(path, ".mp3"@) && (contains(path, "ytmusic_play_"@) || contains(
        path,
        "ytmusic_play-"@,
    ))
}

/// The mark of a queued track with the source `path`, given whether the
/// library holds that path and whether a file of nonzero length is there.
pub open spec fn mark_of(path: Seq<char>, in_library: bool, present: bool) -> Mark {
    if in_library {
        Mark::Library
    } else if !present {
        Mark::Missing
    } else if stream_like(path) {
        Mark::Stream
    } else {
        Mark::File
    }
}

/// The mark of a queued track.
pub fn queue_mark(path: &str, in_library: bool, present: bool) -> (r: Mark)
    ensures
        r == mark_of(path@, in_library, present),
{
    if in_library {
        Mark::Library
    } else if !present {
        Mark::Missing
    } else if has_suffix(path, ".mp3") && (has_infix(path, "ytmusic_play_") || has_infix(
        path,
        "ytmusic_play-",
    )) {
        Mark::Stream
    } else {
        Mark::File
    }
}

/// What follows the status in the line of the player.
pub open spec fn player_hint() -> Seq<char> {
    " (Ctrl+p to pause/resume, Ctrl+n to next, Ctrl+q to quit)"@
}

/// The line of the player: the title that plays, or a word for none, then
/// the status in brackets and the keys that command the session.
pub open spec fn player_line(title: Option<Seq<char>>, status: StatusView) -> Seq<char> {
    let subject = match title {
        Some(t) => t,
        None => "[No song playing]"@,
    };
    "\u{25b6} "@ + subject + " ["@ + status.label() + "]"@ + player_hint()
}

/// The line of the player.
pub fn player_bar(title: &Option<String>, status: &Status) -> (r: String)
    ensures
        r@ == player_line(title.deep_view(), status@),
{
    let mut r = String::from_str("\u{25b6} ");
    match title {
        Some(t) => r.append(t.as_str()),
        None => r.append("[No song playing]"),
    }
    r.append(" [");
    let label = status.label();
    r.append(label.as_str());
    r.append("]");
    r.append(" (Ctrl+p to pause/resume, Ctrl+n to next, Ctrl+q to quit)");
    r
}

/// How the search line is shown.
#[derive(Debug, Clone, Copy, PartialEq, Eq)]
pub enum Tone {
    /// Nothing to show.
    Empty,
    /// A search runs.
    Busy,
    /// The search has ended, with results or with an error.
    Done,
    /// The line is being written.
    Open,
}

/// How the search line is shown.
pub open spec fn tone_of(app: AppView) -> Tone {
    if app.input.len() == 0 {
        Tone::Empty
    } else if app.searching {
        Tone::Busy
    } else if app.results.len() > 0 || app.error is Some {
        Tone::Done
    } else {
        Tone::Open
    }
}

/// How the search line is shown.
pub fn input_tone(app: &App) -> (r: Tone)
    ensures
        r == tone_of(app@),
{
    if app.input.as_str().unicode_len() == 0 {
        Tone::Empty
    } else if app.searching {
        Tone::Busy
    } else if app.results.len() > 0 || app.error.is_some() {
        Tone::Done
    } else {
        Tone::Open
    }
}

/// The line of help under the list: the message of a failed search where
/// the catalog is browsed, else what the keys do, by whether the list is
/// empty.
pub open spec fn help_line(app: AppView, mode: Mode) -> Seq<char> {
    match mode {
        Mode::DownloadedOnly => if app.results.len() == 0 {
            "No downloaded songs found."@
        } else {
            "Navigate with arrows, Enter/Ctrl+a to play/queue, Ctrl+n next, Ctrl+p pause/resume, Ctrl+q quit."@
        },
        Mode::Streaming => match app.error {
            Some(message) => message,
            None => if app.results.len() == 0 {
                "Type your search and press Enter. Ctrl+q to quit."@
            } else {
                "Navigate with arrows, Enter to play, Ctrl+a to queue, Ctrl+l to like, v to view library, Esc to search again, Ctrl+q to quit. Ctrl+p to pause/resume. Ctrl+n to next."@
            },
        },
    }
}

/// The line of help under the list.
pub fn help_text(app: &App, mode: Mode) -> (r: String)
    ensures
        r@ == help_line(app@, mode),
{
    match mode {
        Mode::DownloadedOnly => {
            if app.results.len() == 0 {
                String::from_str("No downloaded songs found.")
            } else {
                String::from_str(
                    "Navigate with arrows, Enter/Ctrl+a to play/queue, Ctrl+n next, Ctrl+p pause/resume, Ctrl+q quit.",
                )
            }
        },
        Mode::Streaming => match &app.error {
            Some(message) => message.clone(),
            None => {
                if app.results.len() == 0 {
                    String::from_str("Type your search and press Enter. Ctrl+q to quit.")
                } else {
                    String::from_str(
                        "Navigate with arrows, Enter to play, Ctrl+a to queue, Ctrl+l to like, v to view library, Esc to search again, Ctrl+q to quit. Ctrl+p to pause/resume. Ctrl+n to next.",
                    )
                }
            },
        },
    }
}

/// `text` in lower case, as `str::to_lowercase` gives it.
pub uninterp spec fn lowercase(text: Seq<char>) -> Seq<char>;

/// `str::to_lowercase`: the lower case of `text` by the rules of Unicode,
/// which depends on `text` alone.
#[verifier::external_body]
fn lower(text: &str) -> (r: String)
    ensures
        r@ == lowercase(text@),
{
    text.to_lowercase()
}

/// How an entry of the results stands out.
#[derive(Debug, Clone, Copy, PartialEq, Eq)]
pub enum Accent {
    /// Selected, and its title holds the query.
    SelectedMatch,
    /// Its title holds the query.
    Match,
    /// Selected.
    Selected,
    Plain,
}

/// How an entry stands out whose title does not hold the query.
pub open spec fn unmatched(selected: bool) -> Accent {
    if selected {
        Accent::Selected
    } else {
        Accent::Plain
    }
}

/// How an entry stands out, given its title and the query, both in lower
/// case: it is a match if the title holds the query.
pub open spec fn accent_of(title: Seq<char>, query: Seq<char>, selected: bool) -> Accent {
    if contains(title, query) {
        if selected {
            Accent::SelectedMatch
        } else {
            Accent::Match
        }
    } else {
        unmatched(selected)
    }
}

/// How an entry stands out, given its title and the query, both in lower
/// case.
pub fn accent_for(title: &str, query: &str, selected: bool) -> (r: Accent)
    ensures
        r == accent_of(title@, query@, selected),
{
    if has_infix(title, query) {
        if selected {
            Accent::SelectedMatch
        } else {
            Accent::Match
        }
    } else if selected {
        Accent::Selected
    } else {
        Accent::Plain
    }
}

/// How the entry `title` of the results stands out while `input` is the
/// search line. The query is the search line without the white space around
/// it; an empty query matches nothing, and any other is looked for in the
/// title with both in lower case.
pub fn accent(title: &str, input: &str, selected: bool) -> (r: Accent)
    ensures
        r == if trimmed(input@).len() > 0 {
            accent_of(lowercase(title@), lowercase(trimmed(input@)), selected)
        } else {
            unmatched(selected)
        },
{
    let query = trim(input);
    if query.as_str().unicode_len() == 0 {
        if selected {
            Accent::Selected
        } else {
            Accent::Plain
        }
    } else {
        let folded_query = lower(query.as_str());
        let folded_title = lower(title);
        accent_for(folded_title.as_str(), folded_query.as_str(), selected)
    }
}

} // verus!
