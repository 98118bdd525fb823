//! The results of a catalog search: the output of the search tool is one
//! JSON document per line, and each document that names a title and an
//! identifier is one result.

use vstd::prelude::*;
use crate::text::{lines, lines_of, joined};

verus! {

/// At most this many results are taken from one search.
pub const RESULT_LIMIT: usize = 20;

/// A parsed JSON document of `serde_json`.
#[verifier::external_type_specification]
#[verifier::external_body]
pub struct ExValue(serde_json::Value);

/// The members of a JSON value by their keys: for an object, each key with
/// the text of its value if that value is a string and with nothing if it is
/// of another kind; for a value that is no object, no member at all.
pub uninterp spec fn json_members(value: serde_json::Value) -> Map<Seq<char>, Option<Seq<char>>>;

/// The text of a JSON value that is a string; nothing for any other value.
pub uninterp spec fn json_text(value: serde_json::Value) -> Option<Seq<char>>;

/// What `serde_json::from_str` makes of `text`: the members of the document,
/// or nothing where `text` is not one JSON document.
pub uninterp spec fn json_document(text: Seq<char>) -> Option<Map<Seq<char>, Option<Seq<char>>>>;

/// `serde_json::from_str` at the type `Value`: the document that `text`
/// holds, or nothing where the parser reports an error. What it returns
/// depends on `text` alone.
#[verifier::external_body]
fn parse_json(text: &str) -> (r: Option<serde_json::Value>)
    ensures
        match r {
            Some(value) => json_document(text@) == Some(json_members(value)),
            None => json_document(text@) is None,
        },
{
    match serde_json::from_str::<serde_json::Value>(text) {
        Ok(value) => Some(value),
        Err(_) => None,
    }
}

/// `Value::get` with a string index: the member of an object under `key`;
/// nothing if `value` is no object or has no such member.
#[verifier::external_body]
fn json_get<'a>(value: &'a serde_json::Value, key: &str) -> (r: Option<&'a serde_json::Value>)
    ensures
        match r {
            Some(member) => json_members(*value).contains_key(key@) && json_members(*value)[key@]
                == json_text(*member),
            None => !json_members(*value).contains_key(key@),
        },
{
    value.get(key)
}

/// `Value::as_str`: the text of a string; nothing for any other value.
#[verifier::external_body]
fn json_as_str<'a>(value: &'a serde_json::Value) -> (r: Option<&'a str>)
    ensures
        match r {
            Some(text) => json_text(*value) == Some(text@),
            None => json_text(*value) is None,
        },
{
    value.as_str()
}

/// The text of a member, and the empty text for a member that is no string.
pub open spec fn text_or_empty(text: Option<Seq<char>>) -> Seq<char> {
    match text {
        Some(t) => t,
        None => Seq::empty(),
    }
}

/// The result that a document with these members stands for: its title and
/// its identifier, if it has a member `title` and a member `id`.
pub open spec fn entry_of(members: Map<Seq<char>, Option<Seq<char>>>) -> Option<
    (Seq<char>, Seq<char>),
> {
    if members.contains_key("title"@) && members.contains_key("id"@) {
        Some((text_or_empty(members["title"@]), text_or_empty(members["id"@])))
    } else {
        None
    }
}

/// The result that one line of output stands for.
pub open spec fn line_entry(line: Seq<char>) -> Option<(Seq<char>, Seq<char>)> {
    match json_document(line) {
        Some(members) => entry_of(members),
        None => None,
    }
}

/// The results of `lines`, in their order, as long as there are fewer than
/// `limit`.
pub open spec fn entries(lines: Seq<Seq<char>>, limit: nat) -> Seq<(Seq<char>, Seq<char>)>
    decreases lines.len(),
{
    if lines.len() == 0 {
        Seq::empty()
    } else {
        let before = entries(lines.drop_last(), limit);
        match line_entry(lines.last()) {
            Some(entry) => if before.len() < limit {
                before.push(entry)
            } else {
                before
            },
            None => before,
        }
    }
}

/// The results of a search that printed `output`.
pub open spec fn search_results(output: Seq<char>) -> Seq<(Seq<char>, Seq<char>)> {
    entries(lines(output), RESULT_LIMIT as nat)
}

/// Once the limit is reached, further lines add nothing.
pub proof fn lemma_entries_full(all: Seq<Seq<char>>, n: int, limit: nat)
    requires
        0 <= n <= all.len(),
        entries(all.take(n), limit).len() >= limit,
    ensures
        entries(all, limit) == entries(all.take(n), limit),
    decreases all.len() - n,
{
    if n < all.len() {
        assert(all.take(n + 1).drop_last() =~= all.take(n));
        lemma_entries_full(all, n + 1, limit);
    } else {
        assert(all.take(n) =~= all);
    }
}

/// The text of `value`, and the empty text if it is no string.
fn text_of(value: &serde_json::Value) -> (r: String)
    ensures
        r@ == text_or_empty(json_text(*value)),
{
    match json_as_str(value) {
        Some(text) => String::from_str(text),
        None => String::new(),
    }
}

/// The result that the document `value` stands for: its title and its
/// identifier if it has members under `title` and `id`, each taken as the
/// empty text where it is no string.
pub fn entry_of_value(value: &serde_json::Value) -> (r: Option<(String, String)>)
    ensures
        r.deep_view() == entry_of(json_members(*value)),
{
    match json_get(value, "title") {
        Some(title) => match json_get(value, "id") {
            Some(id) => Some((text_of(title), text_of(id))),
            None => None,
        },
        None => None,
    }
}

/// The result that one line of output stands for: none if the line is not
/// a JSON document.
pub fn parse_entry(line: &str) -> (r: Option<(String, String)>)
    ensures
        r.deep_view() == line_entry(line@),
{
    match parse_json(line) {
        Some(value) => entry_of_value(&value),
        None => None,
    }
}

/// The results in the output of the search tool: one per line that holds a
/// document with a title and an identifier, in the order of the lines, and
/// no more than `RESULT_LIMIT`.
pub fn parse_search_results(output: &str) -> (r: Vec<(String, String)>)
    ensures
        r.deep_view() == search_results(output@),
        r.len() <= RESULT_LIMIT,
{
    let all = lines_of(output);
    let mut r: Vec<(String, String)> = Vec::new();
    let mut i: usize = 0;
    while i < all.len() && r.len() < RESULT_LIMIT
        invariant
            i <= all.len(),
            all.deep_view() == lines(output@),
            r.len() <= RESULT_LIMIT,
            r.deep_view() == entries(all.deep_view().take(i as int), RESULT_LIMIT as nat),
        decreases all.len() - i,
    {
        let found = parse_entry(all[i].as_str());
        assert(all.deep_view().take(i + 1).drop_last() =~= all.deep_view().take(i as int));
        match found {
            Some(entry) => {
                r.push(entry);
            },
            None => {},
        }
        i += 1;
    }
    proof {
        if i < all.len() {
            lemma_entries_full(all.deep_view(), i as int, RESULT_LIMIT as nat);
        } else {
            assert(all.deep_view().take(i as int) =~= all.deep_view());
        }
    }
    r
}

/// How a run of the search tool ended.
#[derive(Debug, Clone, PartialEq, Eq)]
pub enum Ran {
    /// It could not be run; the text says why.
    Failed(String),
    /// It ran and exited, with this on its standard output.
    Exited { success: bool, output: String },
}

/// A `Ran` over mathematical text.
pub enum RanView {
    Failed(Seq<char>),
    Exited { success: bool, output: Seq<char> },
}

impl View for Ran {
    type V = RanView;

    open spec fn view(&self) -> RanView {
        match self {
            Ran::Failed(why) => RanView::Failed(why@),
            Ran::Exited { success, output } => RanView::Exited {
                success: *success,
                output: output@,
            },
        }
    }
}

/// What is handed to the search tool to look for `query`: the query behind
/// the word that asks for `RESULT_LIMIT` results.
pub open spec fn search_term(query: Seq<char>) -> Seq<char> {
    "ytsearch20:"@ + query
}

/// What a search comes to: the results of a run that exited with success,
/// else a message.
pub open spec fn searched(ran: RanView) -> Result<Seq<(Seq<char>, Seq<char>)>, Seq<char>> {
    match ran {
        RanView::Failed(why) => Err("yt-dlp failed: "@ + why),
        RanView::Exited { success, output } => if success {
            Ok(search_results(output))
        } else {
            Err("yt-dlp search failed"@)
        },
    }
}

/// What is handed to the search tool to look for `query`.
pub fn build_search_term(query: &str) -> (r: String)
    ensures
        r@ == search_term(query@),
{
    joined("ytsearch20:", query)
}

/// What a search comes to, from how the run of the search tool ended.
pub fn search_youtube(ran: &Ran) -> (r: Result<Vec<(String, String)>, String>)
    ensures
        match r {
            Ok(found) => searched(ran@) == Ok::<Seq<(Seq<char>, Seq<char>)>, Seq<char>>(
                found.deep_view(),
            ),
            Err(message) => searched(ran@) == Err::<Seq<(Seq<char>, Seq<char>)>, Seq<char>>(
                message@,
            ),
        },
{
    match ran {
        Ran::Failed(why) => Err(joined("yt-dlp failed: ", why.as_str())),
        Ran::Exited { success, output } => {
            if *success {
                Ok(parse_search_results(output.as_str()))
            } else {
                Err(String::from_str("yt-dlp search failed"))
            }
        },
    }
}

} // verus!
