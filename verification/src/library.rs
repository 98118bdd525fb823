//! The library of permanent downloads as it is kept on disk: one line for
//! each track, its title and its path with a bar between them.

use vstd::prelude::*;
use crate::text::{
    lemma_lines_append, lemma_lines_single, lemma_position_first, lines, lines_of, split_at_first,
    split_once,
};

verus! {

/// The name of the file that holds the library, in the music directory.
pub open spec fn library_file() -> Seq<char> {
    "ytmusic_library.csv"@
}

/// The name of the file that holds the library, in the music directory.
pub fn library_file_name() -> (r: String)
    ensures
        r@ == library_file(),
{
    String::from_str("ytmusic_library.csv")
}

/// The tracks that `lines` hold: a line with a bar is a track, its title
/// before the first bar and its path after it; a line without one is passed
/// over.
pub open spec fn records(lines: Seq<Seq<char>>) -> Seq<(Seq<char>, Seq<char>)>
    decreases lines.len(),
{
    if lines.len() == 0 {
        Seq::empty()
    } else {
        let before = records(lines.drop_last());
        match split_once(lines.last(), '|') {
            Some(record) => before.push(record),
            None => before,
        }
    }
}

/// The library that the text `data` holds.
pub open spec fn parsed(data: Seq<char>) -> Seq<(Seq<char>, Seq<char>)> {
    records(lines(data))
}

/// The line of one track: title, bar, path, newline.
pub open spec fn record_line(record: (Seq<char>, Seq<char>)) -> Seq<char> {
    record.0 + seq!['|'] + record.1 + seq!['\n']
}

/// The text that holds `library`: the lines of its tracks, in order.
pub open spec fn formatted(library: Seq<(Seq<char>, Seq<char>)>) -> Seq<char>
    decreases library.len(),
{
    if library.len() == 0 {
        Seq::empty()
    } else {
        formatted(library.drop_last()) + record_line(library.last())
    }
}

/// A track that the file can hold: no bar and no newline in its title, no
/// newline in its path, and no carriage return at the end of its path.
pub open spec fn storable(record: (Seq<char>, Seq<char>)) -> bool {
    &&& !record.0.contains('|')
    &&& !record.0.contains('\n')
    &&& !record.1.contains('\n')
    &&& record.1.len() > 0 ==> record.1.last() != '\r'
}

/// What is written is read back: the text of a library of storable tracks
/// holds that library.
pub proof fn law_parse_format(library: Seq<(Seq<char>, Seq<char>)>)
    requires
        forall|i: int| 0 <= i < library.len() ==> storable(#[trigger] library[i]),
    ensures
        parsed(formatted(library)) == library,
    decreases library.len(),
{
    if library.len() > 0 {
        let init = library.drop_last();
        let record = library.last();
        let line = record.0 + seq!['|'] + record.1;
        law_parse_format(init);
        assert(!line.contains('\n')) by {
            if line.contains('\n') {
                let k = choose|k: int| 0 <= k < line.len() && line[k] == '\n';
                if k < record.0.len() {
                    assert(record.0.contains(line[k]));
                } else {
                    assert(record.1.contains(line[k]));
                }
            }
        }
        assert(formatted(init).len() > 0 ==> formatted(init).last() == '\n');
        lemma_lines_append(formatted(init), line + seq!['\n'], 0);
        lemma_lines_single(line);
        let all = lines(formatted(init)).push(line);
        assert(lines(formatted(library)) =~= all);
        assert(all.drop_last() =~= lines(formatted(init)));
        assert(split_once(line, '|') == Some((record.0, record.1))) by {
            assert forall|k: int| 0 <= k < record.0.len() implies line[k] != '|' by {
                assert(record.0.contains(line[k]));
            }
            lemma_position_first(line, '|', 0, record.0.len() as int);
        }
    }
}

/// Reads the library from the text of its file.
pub fn parse_library(data: &str) -> (r: Vec<(String, String)>)
    ensures
        r.deep_view() == parsed(data@),
{
    let all = lines_of(data);
    let mut r: Vec<(String, String)> = Vec::new();
    let mut i: usize = 0;
    while i < all.len()
        invariant
            i <= all.len(),
            all.deep_view() == lines(data@),
            r.deep_view() == records(all.deep_view().take(i as int)),
        decreases all.len() - i,
    {
        let found = split_at_first(all[i].as_str(), '|');
        assert(all.deep_view().take(i + 1).drop_last() =~= all.deep_view().take(i as int));
        match found {
            Some(record) => {
                r.push(record);
            },
            None => {},
        }
        i += 1;
    }
    assert(all.deep_view().take(i as int) =~= all.deep_view());
    r
}

/// Writes the library as the text of its file.
pub fn format_library(library: &Vec<(String, String)>) -> (r: String)
    ensures
        r@ == formatted(library.deep_view()),
{
    let mut r = String::new();
    let mut i: usize = 0;
    while i < library.len()
        invariant
            i <= library.len(),
            r@ == formatted(library.deep_view().take(i as int)),
        decreases library.len() - i,
    {
        r.append(library[i].0.as_str());
        r.push('|');
        r.append(library[i].1.as_str());
        r.push('\n');
        assert(library.deep_view().take(i + 1).drop_last() =~= library.deep_view().take(i as int));
        i += 1;
    }
    assert(library.deep_view().take(i as int) =~= library.deep_view());
    r
}

/// Whether `path` is the path of a track of `library`.
pub fn in_library(library: &Vec<(String, String)>, path: &str) -> (r: bool)
    ensures
        r == exists|i: int| 0 <= i < library.len() && (#[trigger] library[i]).1@ == path@,
{
    let mut i: usize = 0;
    while i < library.len()
        invariant
            i <= library.len(),
            forall|j: int| 0 <= j < i ==> (#[trigger] library[j]).1@ != path@,
        decreases library.len() - i,
    {
        if crate::text::same(library[i].1.as_str(), path) {
            return true;
        }
        i += 1;
    }
    false
}

} // verus!
