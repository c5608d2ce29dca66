//! Strings as sequences of characters.
//!
//! All text logic of this crate works on `Vec<char>`, whose view is the
//! `Seq<char>` that the contracts speak of.

use vstd::prelude::*;
use vstd::std_specs::iter::IteratorSpec;

verus! {

/// `String::push` appends one character to the end of the string.
pub assume_specification[ String::push ](s: &mut String, c: char)
    ensures
        final(s)@ == old(s)@.push(c),
;

/// Whether `pattern` stands in `s` at index `at`.
pub open spec fn occurs_at(s: Seq<char>, pattern: Seq<char>, at: int) -> bool {
    &&& 0 <= at
    &&& at + pattern.len() <= s.len()
    &&& s.subrange(at, at + pattern.len()) == pattern
}

/// The least index at or after `from` at which `pattern` stands in `s`.
pub open spec fn first_occurrence(s: Seq<char>, pattern: Seq<char>, from: int) -> Option<int>
    decreases s.len() - from + 1,
{
    if from < 0 || from + pattern.len() > s.len() {
        None
    } else if occurs_at(s, pattern, from) {
        Some(from)
    } else {
        first_occurrence(s, pattern, from + 1)
    }
}

/// What `first_occurrence` gives is an occurrence at or behind `from` with
/// none between `from` and it; where it gives none, there is none.
pub proof fn lemma_first_occurrence(s: Seq<char>, pattern: Seq<char>, from: int)
    requires
        0 <= from,
    ensures
        match first_occurrence(s, pattern, from) {
            Some(at) => from <= at && occurs_at(s, pattern, at) && forall|j: int|
                from <= j < at ==> !occurs_at(s, pattern, j),
            None => forall|j: int| from <= j ==> !occurs_at(s, pattern, j),
        },
    decreases s.len() - from + 1,
{
    if from + pattern.len() <= s.len() && !occurs_at(s, pattern, from) {
        lemma_first_occurrence(s, pattern, from + 1);
    }
}

/// An occurrence at or behind `from` with none between `from` and it is what
/// `first_occurrence` gives.
pub proof fn lemma_first_occurrence_is(s: Seq<char>, pattern: Seq<char>, from: int, at: int)
    requires
        0 <= from <= at,
        occurs_at(s, pattern, at),
        forall|j: int| from <= j < at ==> !occurs_at(s, pattern, j),
    ensures
        first_occurrence(s, pattern, from) == Some(at),
{
    lemma_first_occurrence(s, pattern, from);
}

/// The greatest index at which `c` stands in `s`.
pub open spec fn last_index_of(s: Seq<char>, c: char) -> Option<int>
    decreases s.len(),
{
    if s.len() == 0 {
        None
    } else if s.last() == c {
        Some(s.len() - 1)
    } else {
        last_index_of(s.drop_last(), c)
    }
}

/// The index that `last_index_of` gives holds `c`, and no later one does.
pub proof fn lemma_last_index_of(s: Seq<char>, c: char)
    ensures
        match last_index_of(s, c) {
            Some(i) => 0 <= i < s.len() && s[i] == c && forall|j: int|
                i < j < s.len() ==> s[j] != c,
            None => forall|j: int| 0 <= j < s.len() ==> s[j] != c,
        },
    decreases s.len(),
{
    if s.len() > 0 && s.last() != c {
        let front = s.drop_last();
        lemma_last_index_of(front, c);
        assert forall|j: int| 0 <= j < front.len() implies front[j] == s[j] by {}
        match last_index_of(front, c) {
            Some(i) => {
                assert forall|j: int| i < j < s.len() implies s[j] != c by {
                    if j < front.len() {
                        assert(front[j] != c);
                    }
                }
            },
            None => {
                assert forall|j: int| 0 <= j < s.len() implies s[j] != c by {
                    if j < front.len() {
                        assert(front[j] != c);
                    }
                }
            },
        }
    }
}

/// An index that holds `c` with no `c` behind it is the one that
/// `last_index_of` gives.
pub proof fn lemma_last_index_of_is(s: Seq<char>, c: char, i: int)
    requires
        0 <= i < s.len(),
        s[i] == c,
        forall|j: int| i < j < s.len() ==> s[j] != c,
    ensures
        last_index_of(s, c) == Some(i),
{
    lemma_last_index_of(s, c);
}

/// Whether `c` stands somewhere in `s`.
pub open spec fn has_char(s: Seq<char>, c: char) -> bool {
    exists|i: int| 0 <= i < s.len() && s[i] == c
}

/// The characters of `s`, in order.
pub fn to_chars(s: &str) -> (out: Vec<char>)
    ensures
        out@ == s@,
{
    broadcast use vstd::string::group_string_axioms;

    let mut out: Vec<char> = Vec::new();
    let mut rest = s.chars();
    loop
        invariant
            out@ + rest.remaining() == s@,
        ensures
            out@ == s@,
        decreases s@.len() - out@.len(),
    {
        match rest.next() {
            Some(c) => {
                out.push(c);
            },
            None => {
                assert(out@ + rest.remaining() =~= out@);
                break;
            },
        }
    }
    out
}

/// The string made of the characters of `chars`, in order.
pub fn to_text(chars: &[char]) -> (out: String)
    ensures
        out@ == chars@,
{
    let mut out = String::new();
    let mut i: usize = 0;
    while i < chars.len()
        invariant
            i <= chars.len(),
            out@ == chars@.take(i as int),
        decreases chars.len() - i,
    {
        out.push(chars[i]);
        assert(chars@.take(i as int).push(chars@[i as int]) =~= chars@.take(i + 1));
        i += 1;
    }
    assert(chars@.take(i as int) =~= chars@);
    out
}

/// Where `c` stands last in `chars`.
pub fn find_last(chars: &[char], c: char) -> (r: Option<usize>)
    ensures
        match r {
            Some(i) => last_index_of(chars@, c) == Some(i as int) && i < chars.len(),
            None => last_index_of(chars@, c) is None,
        },
{
    let mut i: usize = chars.len();
    assert(chars@.take(i as int) =~= chars@);
    while i > 0
        invariant
            i <= chars.len(),
            last_index_of(chars@, c) == last_index_of(chars@.take(i as int), c),
        decreases i,
    {
        if chars[i - 1] == c {
            assert(chars@.take(i as int).last() == c);
            return Some(i - 1);
        }
        assert(chars@.take(i as int).drop_last() =~= chars@.take(i - 1));
        i -= 1;
    }
    None
}

/// Whether `c` stands somewhere in `chars`.
pub fn contains_char(chars: &[char], c: char) -> (r: bool)
    ensures
        r == has_char(chars@, c),
{
    let mut i: usize = 0;
    while i < chars.len()
        invariant
            i <= chars.len(),
            forall|j: int| 0 <= j < i ==> chars@[j] != c,
        decreases chars.len() - i,
    {
        if chars[i] == c {
            return true;
        }
        i += 1;
    }
    false
}

/// The characters of `chars` from index `from` up to index `to`.
pub fn slice_chars(chars: &[char], from: usize, to: usize) -> (out: Vec<char>)
    requires
        from <= to <= chars.len(),
    ensures
        out@ == chars@.subrange(from as int, to as int),
{
    let mut out: Vec<char> = Vec::new();
    let mut i: usize = from;
    while i < to
        invariant
            from <= i <= to <= chars.len(),
            out@ == chars@.subrange(from as int, i as int),
        decreases to - i,
    {
        out.push(chars[i]);
        assert(chars@.subrange(from as int, i as int).push(chars@[i as int])
            =~= chars@.subrange(from as int, i + 1));
        i += 1;
    }
    out
}

/// Appends the characters of `tail` to `out`.
pub fn append_chars(out: &mut Vec<char>, tail: &[char])
    ensures
        final(out)@ == old(out)@ + tail@,
{
    let mut i: usize = 0;
    while i < tail.len()
        invariant
            i <= tail.len(),
            out@ == old(out)@ + tail@.take(i as int),
        decreases tail.len() - i,
    {
        out.push(tail[i]);
        assert(tail@.take(i as int).push(tail@[i as int]) =~= tail@.take(i + 1));
        assert(out@ =~= old(out)@ + tail@.take(i + 1));
        i += 1;
    }
    assert(tail@.take(i as int) =~= tail@);
}

/// Appends the characters of `tail` to `out`.
pub fn append_text(out: &mut Vec<char>, tail: &str)
    ensures
        final(out)@ == old(out)@ + tail@,
{
    let chars = to_chars(tail);
    append_chars(out, chars.as_slice());
}

/// The decimal digit that stands for `d`.
pub open spec fn digit(d: nat) -> char {
    if d == 0 {
        '0'
    } else if d == 1 {
        '1'
    } else if d == 2 {
        '2'
    } else if d == 3 {
        '3'
    } else if d == 4 {
        '4'
    } else if d == 5 {
        '5'
    } else if d == 6 {
        '6'
    } else if d == 7 {
        '7'
    } else if d == 8 {
        '8'
    } else {
        '9'
    }
}

/// `n` written in decimal digits, without leading zeros.
pub open spec fn decimal(n: nat) -> Seq<char>
    decreases n,
{
    if n < 10 {
        seq![digit(n)]
    } else {
        decimal(n / 10).push(digit(n % 10))
    }
}

/// The decimal digit that stands for `d`.
fn digit_char(d: u64) -> (c: char)
    requires
        d < 10,
    ensures
        c == digit(d as nat),
{
    if d == 0 {
        '0'
    } else if d == 1 {
        '1'
    } else if d == 2 {
        '2'
    } else if d == 3 {
        '3'
    } else if d == 4 {
        '4'
    } else if d == 5 {
        '5'
    } else if d == 6 {
        '6'
    } else if d == 7 {
        '7'
    } else if d == 8 {
        '8'
    } else {
        '9'
    }
}

/// Appends `n` in decimal digits to `out`.
pub fn append_decimal(out: &mut Vec<char>, n: u64)
    ensures
        final(out)@ == old(out)@ + decimal(n as nat),
    decreases n,
{
    if n >= 10 {
        append_decimal(out, n / 10);
    }
    out.push(digit_char(n % 10));
    assert(out@ =~= old(out)@ + decimal(n as nat));
}

/// Whether `c` is white space, as Unicode's property `White_Space` has it.
pub open spec fn is_space(c: char) -> bool {
    ||| '\u{9}' <= c <= '\u{d}'
    ||| c == ' '
    ||| c == '\u{85}'
    ||| c == '\u{a0}'
    ||| c == '\u{1680}'
    ||| '\u{2000}' <= c <= '\u{200a}'
    ||| c == '\u{2028}'
    ||| c == '\u{2029}'
    ||| c == '\u{202f}'
    ||| c == '\u{205f}'
    ||| c == '\u{3000}'
}

/// `s` without the white space in front.
pub open spec fn trimmed_start(s: Seq<char>) -> Seq<char>
    decreases s.len(),
{
    if s.len() > 0 && is_space(s[0]) {
        trimmed_start(s.skip(1))
    } else {
        s
    }
}

/// `s` without the white space at the end.
pub open spec fn trimmed_end(s: Seq<char>) -> Seq<char>
    decreases s.len(),
{
    if s.len() > 0 && is_space(s.last()) {
        trimmed_end(s.drop_last())
    } else {
        s
    }
}

/// `s` without the white space at either end.
pub open spec fn trimmed(s: Seq<char>) -> Seq<char> {
    trimmed_end(trimmed_start(s))
}

/// Whether `s` begins with `prefix`.
pub open spec fn starts_with(s: Seq<char>, prefix: Seq<char>) -> bool {
    prefix.len() <= s.len() && s.take(prefix.len() as int) == prefix
}

/// Whether `s` ends with `suffix`.
pub open spec fn ends_with(s: Seq<char>, suffix: Seq<char>) -> bool {
    suffix.len() <= s.len() && s.skip(s.len() - suffix.len()) == suffix
}

/// `s` with `prefix` taken from its front as often as it stands there.
pub open spec fn without_prefixes(s: Seq<char>, prefix: Seq<char>) -> Seq<char>
    decreases s.len(),
{
    if prefix.len() > 0 && starts_with(s, prefix) {
        without_prefixes(s.skip(prefix.len() as int), prefix)
    } else {
        s
    }
}

/// `s` with `suffix` taken from its end as often as it stands there.
pub open spec fn without_suffixes(s: Seq<char>, suffix: Seq<char>) -> Seq<char>
    decreases s.len(),
{
    if suffix.len() > 0 && ends_with(s, suffix) {
        without_suffixes(s.take(s.len() - suffix.len()), suffix)
    } else {
        s
    }
}

/// Whether `c` is white space.
pub fn is_white(c: char) -> (r: bool)
    ensures
        r == is_space(c),
{
    ('\u{9}' <= c && c <= '\u{d}') || c == ' ' || c == '\u{85}' || c == '\u{a0}' || c
        == '\u{1680}' || ('\u{2000}' <= c && c <= '\u{200a}') || c == '\u{2028}' || c
        == '\u{2029}' || c == '\u{202f}' || c == '\u{205f}' || c == '\u{3000}'
}

/// `chars` without the white space at either end.
pub fn trim_chars(chars: &[char]) -> (out: Vec<char>)
    ensures
        out@ == trimmed(chars@),
{
    let mut lo: usize = 0;
    assert(chars@.skip(0) =~= chars@);
    while lo < chars.len() && is_white(chars[lo])
        invariant
            lo <= chars.len(),
            trimmed_start(chars@) == trimmed_start(chars@.skip(lo as int)),
        decreases chars.len() - lo,
    {
        assert(chars@.skip(lo as int).skip(1) =~= chars@.skip(lo + 1));
        lo += 1;
    }
    assert(trimmed_start(chars@) == chars@.skip(lo as int));
    let mut hi: usize = chars.len();
    assert(chars@.subrange(lo as int, hi as int) =~= chars@.skip(lo as int));
    while hi > lo && is_white(chars[hi - 1])
        invariant
            lo <= hi <= chars.len(),
            trimmed(chars@) == trimmed_end(chars@.subrange(lo as int, hi as int)),
        decreases hi,
    {
        assert(chars@.subrange(lo as int, hi as int).drop_last() =~= chars@.subrange(
            lo as int,
            hi - 1,
        ));
        hi -= 1;
    }
    slice_chars(chars, lo, hi)
}

/// Whether `pattern` stands in `chars` at index `at`.
pub fn matches_at(chars: &[char], pattern: &[char], at: usize) -> (r: bool)
    ensures
        r == occurs_at(chars@, pattern@, at as int),
{
    if at > chars.len() || pattern.len() > chars.len() - at {
        return false;
    }
    let mut i: usize = 0;
    while i < pattern.len()
        invariant
            i <= pattern.len(),
            at + pattern.len() <= chars.len(),
            forall|j: int| 0 <= j < i ==> chars@[at + j] == pattern@[j],
        decreases pattern.len() - i,
    {
        if chars[at + i] != pattern[i] {
            assert(chars@.subrange(at as int, at + pattern.len())[i as int] != pattern@[i as int]);
            return false;
        }
        i += 1;
    }
    assert(chars@.subrange(at as int, at + pattern.len()) =~= pattern@);
    true
}

/// `chars` with `prefix` taken from its front as often as it stands there.
pub fn strip_prefixes(chars: &[char], prefix: &[char]) -> (out: Vec<char>)
    ensures
        out@ == without_prefixes(chars@, prefix@),
{
    let mut lo: usize = 0;
    assert(chars@.skip(0) =~= chars@);
    while prefix.len() > 0 && matches_at(chars, prefix, lo)
        invariant
            lo <= chars.len(),
            without_prefixes(chars@, prefix@) == without_prefixes(chars@.skip(lo as int), prefix@),
        decreases chars.len() - lo,
    {
        assert(chars@.skip(lo as int).take(prefix.len() as int) =~= chars@.subrange(
            lo as int,
            lo + prefix.len(),
        ));
        assert(chars@.skip(lo as int).skip(prefix.len() as int) =~= chars@.skip(
            lo + prefix.len(),
        ));
        lo += prefix.len();
    }
    proof {
        if prefix.len() > 0 && lo + prefix.len() <= chars.len() {
            assert(chars@.skip(lo as int).take(prefix.len() as int) =~= chars@.subrange(
                lo as int,
                lo + prefix.len(),
            ));
        }
    }
    assert(chars@.subrange(lo as int, chars.len() as int) =~= chars@.skip(lo as int));
    slice_chars(chars, lo, chars.len())
}

/// `chars` with `suffix` taken from its end as often as it stands there.
pub fn strip_suffixes(chars: &[char], suffix: &[char]) -> (out: Vec<char>)
    ensures
        out@ == without_suffixes(chars@, suffix@),
{
    let mut hi: usize = chars.len();
    assert(chars@.take(hi as int) =~= chars@);
    while suffix.len() > 0 && hi >= suffix.len() && matches_at(chars, suffix, hi - suffix.len())
        invariant
            hi <= chars.len(),
            without_suffixes(chars@, suffix@) == without_suffixes(chars@.take(hi as int), suffix@),
        decreases hi,
    {
        assert(chars@.take(hi as int).skip(hi - suffix.len()) =~= chars@.subrange(
            hi - suffix.len(),
            hi as int,
        ));
        assert(chars@.take(hi as int).take(hi - suffix.len()) =~= chars@.take(
            hi - suffix.len(),
        ));
        hi -= suffix.len();
    }
    proof {
        if suffix.len() > 0 && hi >= suffix.len() {
            assert(chars@.take(hi as int).skip(hi - suffix.len()) =~= chars@.subrange(
                hi - suffix.len(),
                hi as int,
            ));
        }
    }
    assert(chars@.subrange(0, hi as int) =~= chars@.take(hi as int));
    slice_chars(chars, 0, hi)
}

} // verus!
