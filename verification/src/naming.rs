//! The naming conventions that tell the kinds of source apart: catalog
//! identifiers, transient stream files and files of the permanent library.

use vstd::prelude::*;
use vstd::utf8::encode_utf8;
use crate::text::{contains, ends_with, starts_with, replaced};
use crate::text::{has_char, has_infix, has_prefix, has_suffix, joined, replace_char};

verus! {

/// What every transient stream file carries in its name.
pub open spec fn stream_mark() -> Seq<char> {
    "ytmusic_play_"@
}

/// The ending of every audio file this player writes.
pub open spec fn audio_suffix() -> Seq<char> {
    ".mp3"@
}

/// What follows the title in the name of a library file.
pub open spec fn library_mark() -> Seq<char> {
    "_ytmusic"@
}

/// What precedes the identifier in the address of a catalog entry.
pub open spec fn watch_prefix() -> Seq<char> {
    "https://www.youtube.com/watch?v="@
}

/// What follows the title of a track whose download is still running.
pub open spec fn pending_mark() -> Seq<char> {
    " (Downloading...)"@
}

/// A catalog identifier: eleven bytes long in UTF-8, with no `/` and no `.`.
pub open spec fn remote_id(source: Seq<char>) -> bool {
    &&& encode_utf8(source).len() == 11
    &&& !source.contains('/')
    &&& !source.contains('.')
}

/// The transient naming convention: the stream mark somewhere in the path,
/// and the audio suffix at its end. Only such files are ever reclaimed.
pub open spec fn stream_file(path: Seq<char>) -> bool {
    contains(path, stream_mark()) && ends_with(path, audio_suffix())
}

/// The address of the catalog entry `id`.
pub open spec fn watch_url(id: Seq<char>) -> Seq<char> {
    watch_prefix() + id
}

/// The title shown for a queued track while its download runs.
pub open spec fn pending_title(title: Seq<char>) -> Seq<char> {
    title + pending_mark()
}

/// The decimal digit of `d`, for `d` below ten.
pub open spec fn digit(d: nat) -> char {
    if d == 0 {
        '0'
    } else if d == 1 {
        '1'
    } else if d == 2 {
        '2'
    } else if d == 3 {
        '3'
    } else if d == 4 {
        '4'
    } else if d == 5 {
        '5'
    } else if d == 6 {
        '6'
    } else if d == 7 {
        '7'
    } else if d == 8 {
        '8'
    } else {
        '9'
    }
}

/// `n` written in decimal, without leading zeros.
pub open spec fn decimal(n: nat) -> Seq<char>
    decreases n,
{
    if n < 10 {
        seq![digit(n)]
    } else {
        decimal(n / 10).push(digit(n % 10))
    }
}

/// The name of the stream file made at the moment `unique`.
pub open spec fn stream_file_name(unique: nat) -> Seq<char> {
    stream_mark() + decimal(unique) + audio_suffix()
}

/// The beginning of the name of every library file kept for `title`: the
/// title with `/` turned into `_`, then the library mark.
pub open spec fn library_stem(title: Seq<char>) -> Seq<char> {
    replaced(title, '/', '_') + library_mark()
}

/// The name under which `title` is kept in the library.
pub open spec fn library_file_name(title: Seq<char>) -> Seq<char> {
    library_stem(title) + audio_suffix()
}

/// `name` is a library file kept for `title`.
pub open spec fn library_match(name: Seq<char>, title: Seq<char>) -> bool {
    starts_with(name, library_stem(title)) && ends_with(name, audio_suffix())
}

/// A name made for a stream file follows the transient naming convention.
pub proof fn law_stream_name_is_stream_file(unique: nat)
    ensures
        stream_file(stream_file_name(unique)),
{
    let name = stream_file_name(unique);
    assert(name.subrange(0, stream_mark().len() as int) =~= stream_mark());
    assert(crate::text::occurs_at(name, stream_mark(), 0));
    assert(name.subrange(name.len() - audio_suffix().len(), name.len() as int) =~= audio_suffix());
}

/// A stream file stays one in whatever directory it lies.
pub proof fn law_stream_file_in_directory(directory: Seq<char>, name: Seq<char>)
    requires
        stream_file(name),
    ensures
        stream_file(directory + name),
{
    let path = directory + name;
    let at = choose|i: int| crate::text::occurs_at(name, stream_mark(), i);
    assert(path.subrange(directory.len() + at, directory.len() + at + stream_mark().len())
        =~= name.subrange(at, at + stream_mark().len()));
    assert(crate::text::occurs_at(path, stream_mark(), directory.len() + at));
    assert(path.subrange(path.len() - audio_suffix().len(), path.len() as int) =~= name.subrange(
        name.len() - audio_suffix().len(),
        name.len() as int,
    ));
}

/// Different numbers are written differently.
pub proof fn lemma_decimal_distinct(a: nat, b: nat)
    requires
        a != b,
    ensures
        decimal(a) != decimal(b),
    decreases a,
{
    if a < 10 && b < 10 {
        assert(decimal(a)[0] == digit(a) && decimal(b)[0] == digit(b));
    } else if a < 10 || b < 10 {
        lemma_decimal_not_empty(a / 10);
        lemma_decimal_not_empty(b / 10);
        assert(decimal(a).len() != decimal(b).len());
    } else if a / 10 != b / 10 {
        lemma_decimal_distinct(a / 10, b / 10);
        assert(decimal(a).drop_last() =~= decimal(a / 10));
        assert(decimal(b).drop_last() =~= decimal(b / 10));
    } else {
        assert(decimal(a).last() == digit(a % 10) && decimal(b).last() == digit(b % 10));
    }
}

/// Every number is written with at least one digit.
pub proof fn lemma_decimal_not_empty(n: nat)
    ensures
        decimal(n).len() >= 1,
    decreases n,
{
    if n >= 10 {
        lemma_decimal_not_empty(n / 10);
    }
}

/// Stream files made at different moments have different names.
pub proof fn law_stream_names_distinct(a: nat, b: nat)
    requires
        a != b,
    ensures
        stream_file_name(a) != stream_file_name(b),
{
    lemma_decimal_distinct(a, b);
    let na = stream_file_name(a);
    let nb = stream_file_name(b);
    let m = stream_mark().len() as int;
    if na == nb {
        assert(na.len() == m + decimal(a).len() + audio_suffix().len());
        assert(nb.len() == m + decimal(b).len() + audio_suffix().len());
        assert(na.subrange(m, m + decimal(a).len()) =~= decimal(a));
        assert(nb.subrange(m, m + decimal(b).len()) =~= decimal(b));
    }
}

/// The name under which a title is kept in the library is found again as a
/// library file of that title.
pub proof fn law_library_name_matches(title: Seq<char>)
    ensures
        library_match(library_file_name(title), title),
{
    let name = library_file_name(title);
    assert(name.subrange(0, library_stem(title).len() as int) =~= library_stem(title));
    assert(name.subrange(name.len() - audio_suffix().len(), name.len() as int) =~= audio_suffix());
}

/// Whether `source` is a catalog identifier.
pub fn is_remote_id(source: &str) -> (r: bool)
    ensures
        r == remote_id(source@),
{
    source.as_bytes().len() == 11 && !has_char(source, '/') && !has_char(source, '.')
}

/// Whether `path` follows the transient naming convention.
pub fn is_stream_file(path: &str) -> (r: bool)
    ensures
        r == stream_file(path@),
{
    has_infix(path, "ytmusic_play_") && has_suffix(path, ".mp3")
}

/// The address of the catalog entry `id`.
pub fn build_watch_url(id: &str) -> (r: String)
    ensures
        r@ == watch_url(id@),
{
    joined("https://www.youtube.com/watch?v=", id)
}

/// The title shown for a queued track while its download runs.
pub fn build_pending_title(title: &str) -> (r: String)
    ensures
        r@ == pending_title(title@),
{
    joined(title, " (Downloading...)")
}

/// The decimal digit of `d`.
pub fn digit_of(d: u8) -> (c: char)
    requires
        d < 10,
    ensures
        c == digit(d as nat),
{
    if d == 0 {
        '0'
    } else if d == 1 {
        '1'
    } else if d == 2 {
        '2'
    } else if d == 3 {
        '3'
    } else if d == 4 {
        '4'
    } else if d == 5 {
        '5'
    } else if d == 6 {
        '6'
    } else if d == 7 {
        '7'
    } else if d == 8 {
        '8'
    } else {
        '9'
    }
}

/// Appends `n` in decimal to `out`.
pub fn push_decimal(out: &mut String, n: u128)
    ensures
        final(out)@ == old(out)@ + decimal(n as nat),
    decreases n,
{
    if n >= 10 {
        push_decimal(out, n / 10);
    }
    let d: u8 = (n % 10) as u8;
    out.push(digit_of(d));
}

/// The name of the stream file made at the moment `unique`.
pub fn build_stream_file_name(unique: u128) -> (r: String)
    ensures
        r@ == stream_file_name(unique as nat),
{
    let mut r = String::from_str("ytmusic_play_");
    push_decimal(&mut r, unique);
    r.append(".mp3");
    r
}

/// The name under which `title` is kept in the library.
pub fn build_library_file_name(title: &str) -> (r: String)
    ensures
        r@ == library_file_name(title@),
{
    let mut r = replace_char(title, '/', '_');
    r.append("_ytmusic");
    r.append(".mp3");
    r
}

/// Whether `name` is a library file kept for `title`.
pub fn is_library_match(name: &str, title: &str) -> (r: bool)
    ensures
        r == library_match(name@, title@),
{
    let mut stem = replace_char(title, '/', '_');
    stem.append("_ytmusic");
    has_prefix(name, stem.as_str()) && has_suffix(name, ".mp3")
}

} // verus!
