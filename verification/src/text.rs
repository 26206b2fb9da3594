//! Character-level helpers on `String` and `&str`, stated over `Seq<char>`.

use vstd::prelude::*;
use vstd::string::StrSliceExecFns;

verus! {

/// Appends one character to a string.
///
/// Trusted: calls `String::push`, which std documents as appending the character
/// to the end of the string.
#[verifier::external_body]
pub(crate) fn push_char(s: &mut String, c: char)
    ensures
        final(s)@ == old(s)@.push(c),
{
    s.push(c);
}

/// Whether `c` has the Unicode `Uppercase` property, as std's `char::is_uppercase`
/// computes it from the Unicode tables.
pub uninterp spec fn spec_char_is_uppercase(c: char) -> bool;

/// Trusted: calls `char::is_uppercase`; its result is named, not stated.
#[verifier::external_body]
pub(crate) fn char_is_uppercase(c: char) -> (b: bool)
    ensures
        b == spec_char_is_uppercase(c),
{
    c.is_uppercase()
}

/// A code point is a Unicode scalar value when it is at most 0x10FFFF and not
/// a surrogate.
pub open spec fn is_scalar_value(cp: u32) -> bool {
    cp < 0xD800 || (0xE000 <= cp && cp <= 0x10FFFF)
}

/// Converts a code point to a `char` when it is a Unicode scalar value.
///
/// Trusted: calls `char::from_u32`, which std documents as returning `None`
/// exactly for surrogates and values above `char::MAX` (0x10FFFF).
#[verifier::external_body]
pub(crate) fn char_from_u32(cp: u32) -> (r: Option<char>)
    ensures
        r == (if is_scalar_value(cp) {
            Some(cp as char)
        } else {
            None
        }),
{
    char::from_u32(cp)
}

/// The `Cc` (control) general category: U+0000..U+001F and U+007F..U+009F.
pub open spec fn is_control_char(c: char) -> bool {
    (c as u32) <= 0x1F || (0x7F <= (c as u32) && (c as u32) <= 0x9F)
}

/// Returns true for characters of the `Cc` general category.
pub fn char_is_control(c: char) -> (b: bool)
    ensures
        b == is_control_char(c),
{
    let cp = c as u32;
    cp <= 0x1F || (0x7F <= cp && cp <= 0x9F)
}

/// The characters of a string slice.
pub fn chars_of(s: &str) -> (v: Vec<char>)
    ensures
        v@ == s@,
{
    let n = s.unicode_len();
    let mut v: Vec<char> = Vec::new();
    let mut i: usize = 0;
    while i < n
        invariant
            n == s@.len(),
            i <= n,
            v@ == s@.subrange(0, i as int),
        decreases n - i,
    {
        let c = s.get_char(i);
        v.push(c);
        i = i + 1;
    }
    assert(s@.subrange(0, n as int) == s@);
    v
}

/// A string holding the characters `cs[from..to]`.
pub fn string_from_chars(cs: &Vec<char>, from: usize, to: usize) -> (s: String)
    requires
        from <= to <= cs@.len(),
    ensures
        s@ == cs@.subrange(from as int, to as int),
{
    let mut s = String::new();
    let mut i = from;
    while i < to
        invariant
            from <= i <= to <= cs@.len(),
            s@ == cs@.subrange(from as int, i as int),
        decreases to - i,
    {
        push_char(&mut s, cs[i]);
        assert(cs@.subrange(from as int, i + 1) == cs@.subrange(from as int, i as int).push(
            cs@[i as int],
        ));
        i = i + 1;
    }
    s
}

/// Equality of two string slices by their characters.
pub fn str_eq(a: &str, b: &str) -> (r: bool)
    ensures
        r == (a@ == b@),
{
    let x = a.to_string();
    let y = b.to_string();
    x == y
}

/// Whether `s` ends with `suffix`.
pub open spec fn seq_ends_with(s: Seq<char>, suffix: Seq<char>) -> bool {
    suffix.len() <= s.len() && s.subrange(s.len() - suffix.len(), s.len() as int) == suffix
}

/// Whether `s` ends with `suffix`, by characters.
pub fn ends_with(s: &str, suffix: &str) -> (r: bool)
    ensures
        r == seq_ends_with(s@, suffix@),
{
    let a = chars_of(s);
    let b = chars_of(suffix);
    if b.len() > a.len() {
        return false;
    }
    let off = a.len() - b.len();
    let mut i: usize = 0;
    while i < b.len()
        invariant
            a@ == s@,
            b@ == suffix@,
            a@.len() == a.len(),
            b@.len() == b.len(),
            off + b.len() == a.len(),
            i <= b.len(),
            forall|j: int| 0 <= j < i ==> a@[off + j] == b@[j],
        decreases b.len() - i,
    {
        if a[off + i] != b[i] {
            assert(a@.subrange(off as int, a@.len() as int)[i as int] == a@[off + i]);
            assert(a@.subrange(off as int, a@.len() as int) != b@);
            assert(s@.len() - suffix@.len() == off);
            assert(!seq_ends_with(s@, suffix@));
            return false;
        }
        i = i + 1;
    }
    assert(a@.subrange(off as int, a@.len() as int) =~= b@);
    true
}

/// Index just after the last occurrence of `c` in `s`, or 0 when `c` does not occur.
pub open spec fn after_last(s: Seq<char>, c: char) -> int
    decreases s.len(),
{
    if s.len() == 0 {
        0
    } else if s.last() == c {
        s.len() as int
    } else {
        after_last(s.drop_last(), c)
    }
}

/// `after_last` lies within the sequence, and nothing after it is `c`.
pub proof fn lemma_after_last(s: Seq<char>, c: char)
    ensures
        0 <= after_last(s, c) <= s.len(),
        after_last(s, c) > 0 ==> s[after_last(s, c) - 1] == c,
        forall|j: int| after_last(s, c) <= j < s.len() ==> s[j] != c,
    decreases s.len(),
{
    if s.len() > 0 && s.last() != c {
        lemma_after_last(s.drop_last(), c);
        assert forall|j: int| after_last(s, c) <= j < s.len() implies s[j] != c by {
            if j < s.len() - 1 {
                assert(s.drop_last()[j] == s[j]);
            }
        }
    }
}

/// Index just after the last occurrence of `c` in `s`, or 0 when there is none.
pub fn find_after_last(s: &Vec<char>, c: char) -> (r: usize)
    ensures
        r == after_last(s@, c),
{
    let mut i = s.len();
    assert(s@.subrange(0, i as int) == s@);
    while i > 0
        invariant
            i <= s@.len(),
            after_last(s@, c) == after_last(s@.subrange(0, i as int), c),
        decreases i,
    {
        assert(s@.subrange(0, i as int).drop_last() == s@.subrange(0, i - 1));
        if s[i - 1] == c {
            return i;
        }
        i = i - 1;
    }
    i
}

/// The part of `s` after its last `sep`, or all of `s` when `sep` does not occur.
pub open spec fn last_segment(s: Seq<char>, sep: char) -> Seq<char> {
    s.subrange(after_last(s, sep), s.len() as int)
}

/// The part of `s` before its last `sep`, or `None` when `sep` does not occur.
pub open spec fn before_last(s: Seq<char>, sep: char) -> Option<Seq<char>> {
    if after_last(s, sep) == 0 {
        None
    } else {
        Some(s.subrange(0, after_last(s, sep) - 1))
    }
}

/// The part of `s` after its last `sep`.
pub fn last_segment_of(s: &str, sep: char) -> (r: String)
    ensures
        r@ == last_segment(s@, sep),
{
    let cs = chars_of(s);
    let k = find_after_last(&cs, sep);
    proof { lemma_after_last(cs@, sep); }
    string_from_chars(&cs, k, cs.len())
}

/// The part of `s` before its last `sep`, when there is one.
pub fn before_last_of(s: &str, sep: char) -> (r: Option<String>)
    ensures
        r matches Some(x) ==> before_last(s@, sep) == Some(x@),
        r is None <==> before_last(s@, sep) is None,
{
    let cs = chars_of(s);
    let k = find_after_last(&cs, sep);
    proof { lemma_after_last(cs@, sep); }
    if k == 0 {
        None
    } else {
        Some(string_from_chars(&cs, 0, k - 1))
    }
}

} // verus!
