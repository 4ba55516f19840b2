//! Text helpers shared by the rest of the library: comparison, search,
//! concatenation, decimal rendering, trimming and cutting into lines and
//! pieces, all stated over `Seq<char>`.

use vstd::prelude::*;
use vstd::string::*;

verus! {

/// `needle` stands in `hay` at offset `at`.
pub open spec fn occurs_at(hay: Seq<char>, needle: Seq<char>, at: int) -> bool {
    &&& 0 <= at
    &&& at + needle.len() <= hay.len()
    &&& hay.subrange(at, at + needle.len()) == needle
}

/// `needle` is a contiguous part of `hay`.
pub open spec fn contains_text(hay: Seq<char>, needle: Seq<char>) -> bool {
    exists|at: int| occurs_at(hay, needle, at)
}

/// The view of an optional string: the characters, where there are any.
pub open spec fn opt_text(o: Option<String>) -> Option<Seq<char>> {
    match o {
        Some(s) => Some(s@),
        None => None,
    }
}

/// The characters of a string slice, in order.
pub fn chars_of(s: &str) -> (r: Vec<char>)
    ensures
        r@ == s@,
{
    let mut out: Vec<char> = Vec::new();
    for c in it: s.chars()
        invariant
            out@ == it.seq().take(it.index() as int),
            it.seq() == s@,
    {
        out.push(c);
    }
    out
}

/// Whether `needle` stands in `hay` at offset `at`.
fn matches_at(hay: &Vec<char>, needle: &Vec<char>, at: usize) -> (r: bool)
    requires
        at + needle.len() <= hay.len(),
    ensures
        r == occurs_at(hay@, needle@, at as int),
{
    let mut k: usize = 0;
    while k < needle.len()
        invariant
            k <= needle.len(),
            at + needle.len() <= hay.len(),
            forall|j: int| 0 <= j < k ==> hay@[at + j] == needle@[j],
        decreases needle.len() - k,
    {
        if hay[at + k] != needle[k] {
            assert(hay@.subrange(at as int, at + needle@.len())[k as int] != needle@[k as int]);
            return false;
        }
        k += 1;
    }
    assert(hay@.subrange(at as int, at + needle@.len()) =~= needle@);
    true
}

/// Substring test on characters.
pub fn contains(hay: &str, needle: &str) -> (r: bool)
    ensures
        r == contains_text(hay@, needle@),
{
    let h = chars_of(hay);
    let n = chars_of(needle);
    if n.len() == 0 {
        assert(occurs_at(hay@, needle@, 0)) by {
            assert(hay@.subrange(0, 0) =~= needle@);
        }
        return true;
    }
    if n.len() > h.len() {
        return false;
    }
    let last: usize = h.len() - n.len();
    let mut at: usize = 0;
    while at <= last
        invariant
            last == h.len() - n.len(),
            n.len() > 0,
            at <= last + 1,
            h@ == hay@,
            n@ == needle@,
            forall|j: int| 0 <= j < at ==> !occurs_at(hay@, needle@, j),
        decreases last + 1 - at,
    {
        if matches_at(&h, &n, at) {
            return true;
        }
        at += 1;
    }
    false
}

/// Equality of two string slices, character by character.
pub fn text_eq(a: &str, b: &str) -> (r: bool)
    ensures
        r == (a@ == b@),
{
    let x = chars_of(a);
    let y = chars_of(b);
    if x.len() != y.len() {
        return false;
    }
    let mut k: usize = 0;
    while k < x.len()
        invariant
            k <= x.len(),
            x.len() == y.len(),
            x@ == a@,
            y@ == b@,
            forall|j: int| 0 <= j < k ==> x@[j] == y@[j],
        decreases x.len() - k,
    {
        if x[k] != y[k] {
            return false;
        }
        k += 1;
    }
    assert(x@ =~= y@);
    true
}

/// Equality of two optional strings: both absent, or both present and equal.
pub fn opt_text_eq(a: &Option<String>, b: &Option<String>) -> (r: bool)
    ensures
        r == (opt_text(*a) == opt_text(*b)),
{
    match (a, b) {
        (None, None) => true,
        (Some(x), Some(y)) => *x == *y,
        _ => false,
    }
}

/// A copy of an optional string.
pub fn opt_text_copy(o: &Option<String>) -> (r: Option<String>)
    ensures
        opt_text(r) == opt_text(*o),
{
    match o {
        Some(s) => Some(s.clone()),
        None => None,
    }
}

/// `a` followed by `b`.
pub fn join(a: &str, b: &str) -> (r: String)
    ensures
        r@ == a@ + b@,
{
    let mut out = a.to_owned();
    out.append(b);
    out
}

/// The character of one decimal digit.
pub open spec fn digit_char(d: nat) -> char {
    if d == 0 {
        '0'
    } else if d == 1 {
        '1'
    } else if d == 2 {
        '2'
    } else if d == 3 {
        '3'
    } else if d == 4 {
        '4'
    } else if d == 5 {
        '5'
    } else if d == 6 {
        '6'
    } else if d == 7 {
        '7'
    } else if d == 8 {
        '8'
    } else {
        '9'
    }
}

/// The decimal numeral of `n`: no sign, no leading zero but for zero itself.
pub open spec fn decimal_text(n: nat) -> Seq<char>
    decreases n,
{
    if n < 10 {
        seq![digit_char(n)]
    } else {
        decimal_text(n / 10).push(digit_char(n % 10))
    }
}

fn digit_str(d: usize) -> (r: &'static str)
    requires
        d < 10,
    ensures
        r@ == seq![digit_char(d as nat)],
{
    proof {
        reveal_strlit("0");
        reveal_strlit("1");
        reveal_strlit("2");
        reveal_strlit("3");
        reveal_strlit("4");
        reveal_strlit("5");
        reveal_strlit("6");
        reveal_strlit("7");
        reveal_strlit("8");
        reveal_strlit("9");
    }
    let r = if d == 0 {
        "0"
    } else if d == 1 {
        "1"
    } else if d == 2 {
        "2"
    } else if d == 3 {
        "3"
    } else if d == 4 {
        "4"
    } else if d == 5 {
        "5"
    } else if d == 6 {
        "6"
    } else if d == 7 {
        "7"
    } else if d == 8 {
        "8"
    } else {
        "9"
    };
    assert(r@ =~= seq![digit_char(d as nat)]);
    r
}

/// Renders `n` in decimal.
pub fn decimal(n: usize) -> (r: String)
    ensures
        r@ == decimal_text(n as nat),
    decreases n,
{
    if n < 10 {
        digit_str(n).to_owned()
    } else {
        let mut out = decimal(n / 10);
        out.append(digit_str(n % 10));
        out
    }
}

/// What `str::to_lowercase` makes of a text.
pub uninterp spec fn lowercased(s: Seq<char>) -> Seq<char>;

/// Calls `str::to_lowercase`, the Unicode lowercase of a string. The contract
/// only names the result: the mapping itself is the standard library's.
#[verifier::external_body]
pub(crate) fn lowercase(s: &str) -> (r: String)
    ensures
        r@ == lowercased(s@),
{
    s.to_lowercase()
}

/// Whether `char::is_whitespace` holds of a character: whether it has the
/// Unicode property `White_Space`.
pub uninterp spec fn white_space(c: char) -> bool;

/// Calls `char::is_whitespace`. The contract only names the result.
#[verifier::external_body]
pub(crate) fn is_white_space(c: char) -> (r: bool)
    ensures
        r == white_space(c),
{
    c.is_whitespace()
}

/// The place of the first character of `s` at or behind `at` that is no
/// white space, or the length of `s` where there is none.
pub open spec fn first_ink(s: Seq<char>, at: int) -> int
    decreases s.len() - at,
{
    if 0 <= at < s.len() && white_space(s[at]) {
        first_ink(s, at + 1)
    } else {
        at
    }
}

/// The place behind the last character of `s` before `end` and not before
/// `from` that is no white space, or `from` where there is none.
pub open spec fn last_ink(s: Seq<char>, from: int, end: int) -> int
    decreases end,
{
    if 0 <= from < end <= s.len() && white_space(s[end - 1]) {
        last_ink(s, from, end - 1)
    } else {
        end
    }
}

/// A text without the white space at its two ends.
pub open spec fn trimmed(s: Seq<char>) -> Seq<char> {
    s.subrange(first_ink(s, 0), last_ink(s, first_ink(s, 0), s.len() as int))
}

/// Removes the white space at the two ends of a text.
pub fn trim(s: &str) -> (r: &str)
    ensures
        r@ == trimmed(s@),
{
    let chars = chars_of(s);
    let mut from: usize = 0;
    while from < chars.len() && is_white_space(chars[from])
        invariant
            from <= chars.len(),
            chars@ == s@,
            first_ink(s@, 0) == first_ink(s@, from as int),
        decreases chars.len() - from,
    {
        from += 1;
    }
    let mut end: usize = chars.len();
    while from < end && is_white_space(chars[end - 1])
        invariant
            from <= end <= chars.len(),
            chars@ == s@,
            last_ink(s@, from as int, s@.len() as int) == last_ink(s@, from as int, end as int),
        decreases end,
    {
        end -= 1;
    }
    s.substring_char(from, end)
}

/// The pieces of `s` between the places where `separator` stands, from left
/// to right, when the piece in hand began at `start` and `s` has been read
/// up to `at`. Two places never overlap.
pub open spec fn pieces_from(s: Seq<char>, separator: Seq<char>, start: int, at: int) -> Seq<
    Seq<char>,
>
    decreases s.len() - at,
{
    if separator.len() == 0 || at < 0 || at + separator.len() > s.len() {
        seq![s.subrange(start, s.len() as int)]
    } else if occurs_at(s, separator, at) {
        seq![s.subrange(start, at)] + pieces_from(
            s,
            separator,
            at + separator.len(),
            at + separator.len(),
        )
    } else {
        pieces_from(s, separator, start, at + 1)
    }
}

/// The pieces that a separator cuts a text into: one more than the number
/// of places where it stands, empty pieces included. An empty separator
/// stands nowhere.
pub open spec fn split_text(s: Seq<char>, separator: Seq<char>) -> Seq<Seq<char>> {
    pieces_from(s, separator, 0, 0)
}

/// Cuts a text at every place where `separator` stands.
pub fn split(s: &str, separator: &str) -> (r: Vec<String>)
    ensures
        r.deep_view() == split_text(s@, separator@),
{
    let chars = chars_of(s);
    let mark = chars_of(separator);
    let mut pieces: Vec<String> = Vec::new();
    let mut start: usize = 0;
    let mut at: usize = 0;
    assert(pieces.deep_view() + split_text(s@, separator@) =~= split_text(s@, separator@));
    if mark.len() == 0 {
        let whole = s.to_owned();
        pieces.push(whole);
        assert(s@.subrange(0, s@.len() as int) =~= s@);
        assert(pieces.deep_view() =~= seq![whole@]);
        return pieces;
    }
    while mark.len() <= chars.len() && at <= chars.len() - mark.len()
        invariant
            start <= at <= chars.len(),
            chars@ == s@,
            mark@ == separator@,
            mark.len() > 0,
            split_text(s@, separator@) == pieces.deep_view() + pieces_from(
                s@,
                separator@,
                start as int,
                at as int,
            ),
        decreases chars.len() - at,
    {
        if matches_at(&chars, &mark, at) {
            let ghost before = pieces.deep_view();
            let piece = s.substring_char(start, at).to_owned();
            pieces.push(piece);
            assert(pieces.deep_view() =~= before.push(s@.subrange(start as int, at as int)));
            at = at + mark.len();
            start = at;
            assert(before + (seq![piece@] + pieces_from(s@, separator@, at as int, at as int))
                =~= pieces.deep_view() + pieces_from(s@, separator@, at as int, at as int));
        } else {
            at += 1;
        }
    }
    let ghost before = pieces.deep_view();
    let last = s.substring_char(start, chars.len()).to_owned();
    pieces.push(last);
    assert(pieces.deep_view() =~= before + seq![last@]);
    pieces
}

/// A line without the carriage return at its end, if it has one.
pub open spec fn without_return(line: Seq<char>) -> Seq<char> {
    if line.len() > 0 && line.last() == '\r' {
        line.drop_last()
    } else {
        line
    }
}

/// The lines of `s` from left to right, when the line in hand began at
/// `start` and `s` has been read up to `at`.
pub open spec fn lines_from(s: Seq<char>, start: int, at: int) -> Seq<Seq<char>>
    decreases s.len() - at,
{
    if at < 0 || at >= s.len() {
        if start >= s.len() {
            Seq::empty()
        } else {
            seq![s.subrange(start, s.len() as int)]
        }
    } else if s[at] == '\n' {
        seq![without_return(s.subrange(start, at))] + lines_from(s, at + 1, at + 1)
    } else {
        lines_from(s, start, at + 1)
    }
}

/// The lines of a text. A line ends in a line feed, or in a carriage return
/// and a line feed, neither of which belongs to it; the last line need not
/// end so, and behind the last line feed no empty line follows.
pub open spec fn lines_of(s: Seq<char>) -> Seq<Seq<char>> {
    lines_from(s, 0, 0)
}

/// The lines of a text.
pub fn lines(s: &str) -> (r: Vec<String>)
    ensures
        r.deep_view() == lines_of(s@),
{
    let chars = chars_of(s);
    let mut found: Vec<String> = Vec::new();
    let mut start: usize = 0;
    let mut at: usize = 0;
    assert(found.deep_view() + lines_of(s@) =~= lines_of(s@));
    while at < chars.len()
        invariant
            start <= at <= chars.len(),
            chars@ == s@,
            lines_of(s@) == found.deep_view() + lines_from(s@, start as int, at as int),
        decreases chars.len() - at,
    {
        if chars[at] == '\n' {
            let ghost before = found.deep_view();
            let ghost whole = s@.subrange(start as int, at as int);
            let end: usize = if start < at && chars[at - 1] == '\r' {
                at - 1
            } else {
                at
            };
            assert(s@.subrange(start as int, end as int) =~= without_return(whole)) by {
                if start < at {
                    assert(whole.last() == s@[at - 1]);
                }
            }
            let line = s.substring_char(start, end).to_owned();
            found.push(line);
            assert(found.deep_view() =~= before.push(without_return(whole)));
            at += 1;
            start = at;
            assert(before + (seq![line@] + lines_from(s@, at as int, at as int))
                =~= found.deep_view() + lines_from(s@, at as int, at as int));
        } else {
            at += 1;
        }
    }
    if start < chars.len() {
        let ghost before = found.deep_view();
        let line = s.substring_char(start, chars.len()).to_owned();
        found.push(line);
        assert(found.deep_view() =~= before + seq![line@]);
    } else {
        assert(found.deep_view() + Seq::<Seq<char>>::empty() =~= found.deep_view());
    }
    found
}

} // verus!
