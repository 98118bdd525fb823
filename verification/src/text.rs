//! Text as sequences of characters: the predicates and small edits that the
//! naming rules and the file formats are built from.
//!
//! Every function here is stated over `Seq<char>`, the view of `str` and
//! `String`. The executable versions first spread a string into a
//! `Vec<char>`, so that a character is reached by its index in constant time.

use vstd::prelude::*;

verus! {

/// `String::push` appends one character to the end of the string.
pub assume_specification[ String::push ](s: &mut String, c: char)
    ensures
        final(s)@ == old(s)@.push(c),
;

/// `String::pop` takes the last character off the string and returns it;
/// on an empty string it returns nothing and changes nothing.
pub assume_specification[ String::pop ](s: &mut String) -> (r: Option<char>)
    ensures
        match r {
            Some(c) => old(s)@.len() > 0 && c == old(s)@.last() && final(s)@ == old(s)@.drop_last(),
            None => old(s)@.len() == 0 && final(s)@ == old(s)@,
        },
;

/// `p` stands in `s` at index `i`.
pub open spec fn occurs_at(s: Seq<char>, p: Seq<char>, i: int) -> bool {
    &&& 0 <= i
    &&& i + p.len() <= s.len()
    &&& s.subrange(i, i + p.len()) == p
}

/// `s` begins with `p`.
pub open spec fn starts_with(s: Seq<char>, p: Seq<char>) -> bool {
    occurs_at(s, p, 0)
}

/// `s` ends with `p`.
pub open spec fn ends_with(s: Seq<char>, p: Seq<char>) -> bool {
    occurs_at(s, p, s.len() - p.len())
}

/// `p` stands somewhere in `s`.
pub open spec fn contains(s: Seq<char>, p: Seq<char>) -> bool {
    exists|i: int| occurs_at(s, p, i)
}

/// `s` with every `from` turned into `to`.
pub open spec fn replaced(s: Seq<char>, from: char, to: char) -> Seq<char> {
    Seq::new(s.len(), |i: int| if s[i] == from { to } else { s[i] })
}

/// The index of the first `c` in `s` at or after `from`; `s.len()` if there
/// is none.
pub open spec fn position(s: Seq<char>, c: char, from: int) -> int
    decreases s.len() - from,
{
    if from < 0 || from >= s.len() {
        s.len() as int
    } else if s[from] == c {
        from
    } else {
        position(s, c, from + 1)
    }
}

/// `position` lies between `from` and the end, names a `c` when it is not the
/// end, and passes no `c` on its way.
pub proof fn lemma_position(s: Seq<char>, c: char, from: int)
    requires
        0 <= from <= s.len(),
    ensures
        from <= position(s, c, from) <= s.len(),
        position(s, c, from) < s.len() ==> s[position(s, c, from)] == c,
        forall|k: int| from <= k < position(s, c, from) ==> s[k] != c,
    decreases s.len() - from,
{
    if from < s.len() && s[from] != c {
        lemma_position(s, c, from + 1);
    }
}

/// `position` is the first occurrence: if `c` stands at `at` and nowhere
/// from `from` up to `at`, then `at` is the position.
pub proof fn lemma_position_first(s: Seq<char>, c: char, from: int, at: int)
    requires
        0 <= from <= at < s.len(),
        s[at] == c,
        forall|k: int| from <= k < at ==> s[k] != c,
    ensures
        position(s, c, from) == at,
    decreases at - from,
{
    if from < at {
        lemma_position_first(s, c, from + 1, at);
    }
}

/// What follows `s` does not move a position that lies within `s`.
pub proof fn lemma_position_within(s: Seq<char>, rest: Seq<char>, c: char, from: int)
    requires
        0 <= from <= s.len(),
        position(s, c, from) < s.len(),
    ensures
        position(s + rest, c, from) == position(s, c, from),
{
    lemma_position(s, c, from);
    lemma_position_first(s + rest, c, from, position(s, c, from));
}

/// A position behind `before` is the position in what follows it, moved by
/// the length of `before`.
pub proof fn lemma_position_behind(before: Seq<char>, s: Seq<char>, c: char, from: int)
    requires
        0 <= from <= s.len(),
    ensures
        position(before + s, c, before.len() + from) == before.len() + position(s, c, from),
    decreases s.len() - from,
{
    if from < s.len() && s[from] != c {
        lemma_position_behind(before, s, c, from + 1);
    }
}

/// The line of `s` that begins at `from`, without its ending: it runs to the
/// next newline or to the end of `s`, and a carriage return just before that
/// newline belongs to the ending.
pub open spec fn line_at(s: Seq<char>, from: int) -> Seq<char> {
    let end = position(s, '\n', from);
    if end < s.len() && from < end && s[end - 1] == '\r' {
        s.subrange(from, end - 1)
    } else {
        s.subrange(from, end)
    }
}

/// The lines of `s` from index `from` on. A newline ends a line; what
/// follows the last newline is a line too unless it is empty.
pub open spec fn lines_from(s: Seq<char>, from: int) -> Seq<Seq<char>>
    decreases s.len() + 1 - from,
    via lines_from_decreases
{
    if from < 0 || from >= s.len() {
        Seq::empty()
    } else {
        seq![line_at(s, from)] + lines_from(s, position(s, '\n', from) + 1)
    }
}

#[via_fn]
proof fn lines_from_decreases(s: Seq<char>, from: int) {
    if 0 <= from < s.len() {
        lemma_position(s, '\n', from);
    }
}

/// The lines of `s`.
pub open spec fn lines(s: Seq<char>) -> Seq<Seq<char>> {
    lines_from(s, 0)
}

/// The lines behind `before` are the lines of what follows it.
pub proof fn lemma_lines_behind(before: Seq<char>, s: Seq<char>, from: int)
    requires
        0 <= from <= s.len(),
    ensures
        lines_from(before + s, before.len() + from) == lines_from(s, from),
    decreases s.len() - from,
{
    let all = before + s;
    let n = before.len() as int;
    if from < s.len() {
        lemma_position(s, '\n', from);
        lemma_position_behind(before, s, '\n', from);
        let end = position(s, '\n', from);
        assert(line_at(all, n + from) == line_at(s, from));
        if end + 1 <= s.len() {
            lemma_lines_behind(before, s, end + 1);
        }
        assert(lines_from(s, from) == seq![line_at(s, from)] + lines_from(s, end + 1));
        assert(lines_from(all, n + from) == seq![line_at(all, n + from)] + lines_from(
            all,
            n + end + 1,
        ));
    } else {
        assert(lines_from(s, from) =~= Seq::<Seq<char>>::empty());
        assert(lines_from(all, n + from) =~= Seq::<Seq<char>>::empty());
    }
}

/// The lines of a text whose last line is ended, followed by more text, are
/// the lines of the one and then the lines of the other.
pub proof fn lemma_lines_append(s: Seq<char>, rest: Seq<char>, from: int)
    requires
        0 <= from <= s.len(),
        s.len() > 0 ==> s.last() == '\n',
    ensures
        lines_from(s + rest, from) == lines_from(s, from) + lines_from(rest, 0),
    decreases s.len() - from,
{
    if from == s.len() {
        lemma_lines_behind(s, rest, 0);
    } else {
        lemma_position(s, '\n', from);
        lemma_position_within(s, rest, '\n', from);
        assert(line_at(s + rest, from) == line_at(s, from));
        lemma_lines_append(s, rest, position(s, '\n', from) + 1);
    }
}

/// One line with its ending is read as that line, if it holds no newline
/// and does not end in a carriage return.
pub proof fn lemma_lines_single(line: Seq<char>)
    requires
        !line.contains('\n'),
        line.len() > 0 ==> line.last() != '\r',
    ensures
        lines(line + seq!['\n']) == seq![line],
{
    let s = line + seq!['\n'];
    let n = line.len() as int;
    assert forall|k: int| 0 <= k < n implies s[k] != '\n' by {
        assert(line.contains(s[k]));
    }
    lemma_position_first(s, '\n', 0, n);
    assert(line_at(s, 0) == line);
    assert(lines_from(s, n + 1) =~= Seq::<Seq<char>>::empty());
}

/// `s` parted at its first `c`: what stands before it and what stands after
/// it. None if `s` holds no `c`.
pub open spec fn split_once(s: Seq<char>, c: char) -> Option<(Seq<char>, Seq<char>)> {
    let at = position(s, c, 0);
    if at < s.len() {
        Some((s.subrange(0, at), s.subrange(at + 1, s.len() as int)))
    } else {
        None
    }
}

/// White space: the characters that have the property of that name in
/// Unicode.
pub open spec fn blank(c: char) -> bool {
    ||| '\u{9}' <= c <= '\u{d}'
    ||| c == ' '
    ||| c == '\u{85}'
    ||| c == '\u{a0}'
    ||| c == '\u{1680}'
    ||| '\u{2000}' <= c <= '\u{200a}'
    ||| c == '\u{2028}'
    ||| c == '\u{2029}'
    ||| c == '\u{202f}'
    ||| c == '\u{205f}'
    ||| c == '\u{3000}'
}

/// The index of the first character of `s` at or after `from` that is not
/// blank; `s.len()` if there is none.
pub open spec fn first_mark(s: Seq<char>, from: int) -> int
    decreases s.len() - from,
{
    if from < 0 || from >= s.len() {
        s.len() as int
    } else if !blank(s[from]) {
        from
    } else {
        first_mark(s, from + 1)
    }
}

/// The index just after the last character of `s` before `to` that is not
/// blank; 0 if there is none.
pub open spec fn last_mark(s: Seq<char>, to: int) -> int
    decreases to,
{
    if to <= 0 || to > s.len() {
        0
    } else if !blank(s[to - 1]) {
        to
    } else {
        last_mark(s, to - 1)
    }
}

/// `s` without the white space at its beginning and at its end.
pub open spec fn trimmed(s: Seq<char>) -> Seq<char> {
    let from = first_mark(s, 0);
    let to = last_mark(s, s.len() as int);
    if from < to {
        s.subrange(from, to)
    } else {
        Seq::empty()
    }
}

/// The characters of `s`, in order.
pub fn chars_of(s: &str) -> (v: Vec<char>)
    ensures
        v@ == s@,
{
    let mut v: Vec<char> = Vec::new();
    for c in it: s.chars()
        invariant
            it.seq() == s@,
            v@ == s@.subrange(0, it.index() as int),
    {
        v.push(c);
        assert(v@ =~= s@.subrange(0, it.index() + 1));
    }
    assert(v@ =~= s@);
    v
}

/// The string made of the characters `v[from..to]`.
pub fn string_of(v: &Vec<char>, from: usize, to: usize) -> (s: String)
    requires
        from <= to <= v.len(),
    ensures
        s@ == v@.subrange(from as int, to as int),
{
    let mut s = String::new();
    let mut i: usize = from;
    while i < to
        invariant
            from <= i <= to <= v.len(),
            s@ == v@.subrange(from as int, i as int),
        decreases to - i,
    {
        s.push(v[i]);
        i += 1;
    }
    s
}

/// Whether `p` stands in `s` at index `i`.
pub fn matches_at(s: &Vec<char>, p: &Vec<char>, i: usize) -> (r: bool)
    ensures
        r == occurs_at(s@, p@, i as int),
{
    if p.len() > s.len() || i > s.len() - p.len() {
        return false;
    }
    let mut k: usize = 0;
    while k < p.len()
        invariant
            k <= p.len(),
            i + p.len() <= s.len(),
            forall|j: int| 0 <= j < k ==> s@[i + j] == p@[j],
        decreases p.len() - k,
    {
        if s[i + k] != p[k] {
            proof {
                let w = s@.subrange(i as int, i + p.len());
                assert(w[k as int] == s@[i + k]);
            }
            return false;
        }
        k += 1;
    }
    assert(s@.subrange(i as int, i + p.len()) =~= p@);
    true
}

/// Whether `s` begins with `p`.
pub fn has_prefix(s: &str, p: &str) -> (r: bool)
    ensures
        r == starts_with(s@, p@),
{
    let sv = chars_of(s);
    let pv = chars_of(p);
    matches_at(&sv, &pv, 0)
}

/// Whether `s` ends with `p`.
pub fn has_suffix(s: &str, p: &str) -> (r: bool)
    ensures
        r == ends_with(s@, p@),
{
    let sv = chars_of(s);
    let pv = chars_of(p);
    if pv.len() > sv.len() {
        return false;
    }
    matches_at(&sv, &pv, sv.len() - pv.len())
}

/// Whether `p` stands somewhere in `s`.
pub fn has_infix(s: &str, p: &str) -> (r: bool)
    ensures
        r == contains(s@, p@),
{
    let sv = chars_of(s);
    let pv = chars_of(p);
    if pv.len() > sv.len() {
        return false;
    }
    let last: usize = sv.len() - pv.len();
    let mut i: usize = 0;
    while i < last
        invariant
            i <= last,
            last == sv.len() - pv.len(),
            sv@ == s@,
            pv@ == p@,
            forall|j: int| 0 <= j < i ==> !occurs_at(s@, p@, j),
        decreases last - i,
    {
        if matches_at(&sv, &pv, i) {
            return true;
        }
        i += 1;
    }
    matches_at(&sv, &pv, last)
}

/// Whether the character `c` is among those of `s`.
pub fn has_char(s: &str, c: char) -> (r: bool)
    ensures
        r == s@.contains(c),
{
    let sv = chars_of(s);
    let mut i: usize = 0;
    while i < sv.len()
        invariant
            i <= sv.len(),
            sv@ == s@,
            forall|j: int| 0 <= j < i ==> s@[j] != c,
        decreases sv.len() - i,
    {
        if sv[i] == c {
            return true;
        }
        i += 1;
    }
    false
}

/// `s` with every `from` turned into `to`.
pub fn replace_char(s: &str, from: char, to: char) -> (r: String)
    ensures
        r@ == replaced(s@, from, to),
{
    let sv = chars_of(s);
    let mut r = String::new();
    let mut i: usize = 0;
    while i < sv.len()
        invariant
            i <= sv.len(),
            sv@ == s@,
            r@ == replaced(s@, from, to).subrange(0, i as int),
        decreases sv.len() - i,
    {
        let c = sv[i];
        if c == from {
            r.push(to);
        } else {
            r.push(c);
        }
        i += 1;
    }
    r
}

/// The index of the first `c` in `v` at or after `from`; `v.len()` if there
/// is none.
pub fn find_from(v: &Vec<char>, c: char, from: usize) -> (i: usize)
    requires
        from <= v.len(),
    ensures
        i == position(v@, c, from as int),
        from <= i <= v.len(),
{
    let mut i: usize = from;
    while i < v.len() && v[i] != c
        invariant
            from <= i <= v.len(),
            position(v@, c, from as int) == position(v@, c, i as int),
        decreases v.len() - i,
    {
        i += 1;
    }
    i
}

/// The lines of `text`.
pub fn lines_of(text: &str) -> (r: Vec<String>)
    ensures
        r.deep_view() == lines(text@),
{
    let v = chars_of(text);
    let mut r: Vec<String> = Vec::new();
    let mut from: usize = 0;
    while from < v.len()
        invariant
            from <= v.len(),
            v@ == text@,
            r.deep_view() + lines_from(text@, from as int) == lines(text@),
        decreases v.len() - from,
    {
        let end = find_from(&v, '\n', from);
        let stop = if end < v.len() && from < end && v[end - 1] == '\r' {
            end - 1
        } else {
            end
        };
        let line = string_of(&v, from, stop);
        let ghost before = r.deep_view();
        r.push(line);
        proof {
            assert(before + (seq![line@] + lines_from(text@, end + 1)) =~= before.push(line@)
                + lines_from(text@, end + 1));
        }
        if end < v.len() {
            from = end + 1;
        } else {
            from = end;
        }
    }
    r
}

/// `s` parted at its first `c`.
pub fn split_at_first(s: &str, c: char) -> (r: Option<(String, String)>)
    ensures
        r.deep_view() == split_once(s@, c),
{
    let v = chars_of(s);
    let at = find_from(&v, c, 0);
    if at < v.len() {
        let head = string_of(&v, 0, at);
        let tail = string_of(&v, at + 1, v.len());
        Some((head, tail))
    } else {
        None
    }
}

/// Whether `c` is white space.
pub fn is_blank(c: char) -> (r: bool)
    ensures
        r == blank(c),
{
    ('\u{9}' <= c && c <= '\u{d}') || c == ' ' || c == '\u{85}' || c == '\u{a0}' || c
        == '\u{1680}' || ('\u{2000}' <= c && c <= '\u{200a}') || c == '\u{2028}' || c
        == '\u{2029}' || c == '\u{202f}' || c == '\u{205f}' || c == '\u{3000}'
}

/// `s` without the white space at its beginning and at its end.
pub fn trim(s: &str) -> (r: String)
    ensures
        r@ == trimmed(s@),
{
    let v = chars_of(s);
    let mut from: usize = 0;
    while from < v.len() && is_blank(v[from])
        invariant
            from <= v.len(),
            first_mark(v@, 0) == first_mark(v@, from as int),
        decreases v.len() - from,
    {
        from += 1;
    }
    let mut to: usize = v.len();
    while to > 0 && is_blank(v[to - 1])
        invariant
            to <= v.len(),
            last_mark(v@, v.len() as int) == last_mark(v@, to as int),
        decreases to,
    {
        to -= 1;
    }
    if from < to {
        string_of(&v, from, to)
    } else {
        String::new()
    }
}

/// Whether `a` and `b` are the same text.
pub fn same(a: &str, b: &str) -> (r: bool)
    ensures
        r == (a@ == b@),
{
    let av = chars_of(a);
    let bv = chars_of(b);
    if av.len() != bv.len() {
        return false;
    }
    let r = matches_at(&av, &bv, 0);
    assert(a@.subrange(0, a@.len() as int) =~= a@);
    r
}

/// `a` followed by `b`.
pub fn joined(a: &str, b: &str) -> (r: String)
    ensures
        r@ == a@ + b@,
{
    let mut r = String::from_str(a);
    r.append(b);
    r
}

} // verus!
