//! Identifiers and literals.

use vstd::prelude::*;

use crate::span::Span;

verus! {

/// An identifier with its source location.
#[derive(Debug, Clone, PartialEq, Eq, Hash)]
pub struct Ident {
    pub name: String,
    pub span: Span,
}

/// An interpreted string literal as written in source, quotes included.
#[derive(Debug, Clone, PartialEq)]
pub struct StringLit {
    pub raw: String,
    pub span: Span,
}

/// A raw string literal as written in source.
#[derive(Debug, Clone, PartialEq)]
pub struct RawStringLit {
    pub raw: String,
    pub span: Span,
}

/// An integer literal as written in source.
#[derive(Debug, Clone, PartialEq)]
pub struct IntLit {
    pub raw: String,
    pub span: Span,
}

/// A floating-point literal as written in source.
#[derive(Debug, Clone, PartialEq)]
pub struct FloatLit {
    pub raw: String,
    pub span: Span,
}

/// An imaginary literal as written in source.
#[derive(Debug, Clone, PartialEq)]
pub struct ImaginaryLit {
    pub raw: String,
    pub span: Span,
}

/// A rune literal as written in source.
#[derive(Debug, Clone, PartialEq)]
pub struct RuneLit {
    pub raw: String,
    pub span: Span,
}

} // verus!

use crate::text::{
    char_from_u32, char_is_control, char_is_uppercase, chars_of, is_control_char,
    is_scalar_value, push_char, spec_char_is_uppercase,
};

verus! {

/// An identifier is exported when its first character is an uppercase letter.
pub open spec fn spec_is_exported(name: Seq<char>) -> bool {
    name.len() > 0 && spec_char_is_uppercase(name[0])
}

impl Ident {
    /// An identifier with the given name and a synthetic span.
    pub fn synthetic(name: &str) -> (id: Ident)
        ensures
            id.name@ == name@,
            id.span == Span::spec_synthetic(),
    {
        Ident { name: name.to_string(), span: Span::synthetic() }
    }

    /// Go's export rule: the first character is a Unicode uppercase letter.
    pub fn is_exported(&self) -> (b: bool)
        ensures
            b == spec_is_exported(self.name@),
    {
        let s = self.name.as_str();
        let n = s.unicode_len();
        if n == 0 {
            return false;
        }
        char_is_uppercase(s.get_char(0))
    }
}

/// Value of a digit character in the given radix (up to 16), if it is one.
pub open spec fn digit_value(c: char, radix: nat) -> Option<nat> {
    let v: int = if '0' <= c && c <= '9' {
        c as int - '0' as int
    } else if 'a' <= c && c <= 'f' {
        c as int - 'a' as int + 10
    } else if 'A' <= c && c <= 'F' {
        c as int - 'A' as int + 10
    } else {
        16
    };
    if v < radix {
        Some(v as nat)
    } else {
        None
    }
}

/// Whether every character of `ds` is a digit in `radix`.
pub open spec fn all_digits(ds: Seq<char>, radix: nat) -> bool {
    forall|i: int| 0 <= i < ds.len() ==> (#[trigger] digit_value(ds[i], radix)) is Some
}

/// The number that the digits `ds` denote in `radix`.
pub open spec fn digits_value(ds: Seq<char>, radix: nat) -> nat
    decreases ds.len(),
{
    if ds.len() == 0 {
        0
    } else {
        digits_value(ds.drop_last(), radix) * radix + digit_value(ds.last(), radix).unwrap()
    }
}

/// Unsigned integer parsing as `from_str_radix` does it: an optional `+`, then
/// at least one digit, and a value no greater than `max`.
pub open spec fn parse_radix(s: Seq<char>, radix: nat, max: nat) -> Option<nat> {
    let body = if s.len() > 0 && s[0] == '+' {
        s.skip(1)
    } else {
        s
    };
    if body.len() == 0 || !all_digits(body, radix) || digits_value(body, radix) > max {
        None
    } else {
        Some(digits_value(body, radix))
    }
}

/// Adding a digit never lowers the value.
proof fn lemma_digits_value_grows(ds: Seq<char>, radix: nat)
    requires
        ds.len() > 0,
        radix >= 1,
    ensures
        digits_value(ds.drop_last(), radix) <= digits_value(ds, radix),
{
    let a = digits_value(ds.drop_last(), radix);
    assert(a * radix >= a) by (nonlinear_arith)
        requires
            radix >= 1,
    ;
}

/// The value of `ds` is at least the value of any of its prefixes.
proof fn lemma_digits_value_prefix(ds: Seq<char>, radix: nat, j: int)
    requires
        0 <= j <= ds.len(),
        radix >= 1,
    ensures
        digits_value(ds.subrange(0, j), radix) <= digits_value(ds, radix),
    decreases ds.len() - j,
{
    if j < ds.len() {
        lemma_digits_value_prefix(ds, radix, j + 1);
        let p = ds.subrange(0, j + 1);
        assert(p.drop_last() == ds.subrange(0, j));
        lemma_digits_value_grows(p, radix);
    } else {
        assert(ds.subrange(0, j) == ds);
    }
}

/// Parses `cs[from..to]` as `from_str_radix` would, for at most eight characters.
fn parse_radix_chars(cs: &Vec<char>, from: usize, to: usize, radix: u64, max: u64) -> (r: Option<
    u64,
>)
    requires
        from <= to <= cs@.len(),
        to - from <= 8,
        2 <= radix <= 16,
        max <= 0xFFFF_FFFF,
    ensures
        r matches Some(v) ==> parse_radix(cs@.subrange(from as int, to as int), radix as nat, max as nat) == Some(v as nat),
        r is None ==> parse_radix(cs@.subrange(from as int, to as int), radix as nat, max as nat) is None,
{
    let ghost s = cs@.subrange(from as int, to as int);
    let mut start = from;
    if from < to && cs[from] == '+' {
        start = from + 1;
    }
    let ghost body = cs@.subrange(start as int, to as int);
    assert(body == (if s.len() > 0 && s[0] == '+' { s.skip(1) } else { s }));
    if start == to {
        return None;
    }
    let r = digits_in(cs, start, to, radix, max);
    assert(body.len() > 0);
    r
}

/// Parses the digits `cs[start..to]` (no sign) in `radix`, as long as the value
/// stays at most `max`.
fn digits_in(cs: &Vec<char>, start: usize, to: usize, radix: u64, max: u64) -> (r: Option<u64>)
    requires
        start < to <= cs@.len(),
        to - start <= 8,
        2 <= radix <= 16,
        max <= 0xFFFF_FFFF,
    ensures
        ({
            let body = cs@.subrange(start as int, to as int);
            &&& r matches Some(v) ==> all_digits(body, radix as nat) && v == digits_value(body, radix as nat) && v <= max
            &&& r is None ==> !all_digits(body, radix as nat) || digits_value(body, radix as nat) > max
        }),
{
    let ghost body = cs@.subrange(start as int, to as int);
    let mut acc: u64 = 0;
    let mut i = start;
    while i < to
        invariant
            start <= i <= to <= cs@.len(),
            body == cs@.subrange(start as int, to as int),
            2 <= radix <= 16,
            max <= 0xFFFF_FFFF,
            acc <= max,
            acc == digits_value(body.subrange(0, i - start), radix as nat),
            all_digits(body.subrange(0, i - start), radix as nat),
        decreases to - i,
    {
        let c = cs[i];
        let d: u64 = if '0' <= c && c <= '9' {
            (c as u64) - ('0' as u64)
        } else if 'a' <= c && c <= 'f' {
            (c as u64) - ('a' as u64) + 10
        } else if 'A' <= c && c <= 'F' {
            (c as u64) - ('A' as u64) + 10
        } else {
            16
        };
        assert(d < radix ==> digit_value(c, radix as nat) == Some(d as nat));
        assert(d >= radix ==> digit_value(c, radix as nat) is None);
        let ghost pre = body.subrange(0, i - start);
        let ghost next = body.subrange(0, i + 1 - start);
        assert(next.drop_last() == pre);
        assert(next.last() == c);
        if d >= radix {
            assert(digit_value(body[i - start], radix as nat) is None);
            return None;
        }
        assert(acc * radix <= 0xFFFF_FFFF * 16) by (nonlinear_arith)
            requires
                acc <= 0xFFFF_FFFF,
                radix <= 16,
        ;
        acc = acc * radix + d;
        assert(all_digits(next, radix as nat)) by {
            assert forall|k: int| 0 <= k < next.len() implies (#[trigger] digit_value(
                next[k],
                radix as nat,
            )) is Some by {
                if k < pre.len() {
                    assert(next[k] == pre[k]);
                }
            }
        }
        if acc > max {
            proof {
                lemma_digits_value_prefix(body, radix as nat, i + 1 - start);
            }
            assert(digits_value(body, radix as nat) > max || !all_digits(body, radix as nat));
            return None;
        }
        i = i + 1;
    }
    assert(body.subrange(0, to - start) == body);
    Some(acc)
}

/// Consumed length and produced text of a `\x`, `\u` or `\U` escape with up
/// to `n` hex digits, given the characters after the escape letter.
pub open spec fn hex_escape(rest: Seq<char>, n: nat, max: nat, as_byte: bool) -> (Seq<char>, nat) {
    let k = if rest.len() < n {
        rest.len()
    } else {
        n
    };
    let piece = match parse_radix(rest.take(k as int), 16, max) {
        Some(v) => if as_byte {
            seq![(v as u8) as char]
        } else if is_scalar_value(v as u32) {
            seq![(v as u32) as char]
        } else {
            Seq::empty()
        },
        None => Seq::empty(),
    };
    (piece, k + 2)
}

/// Whether `c` is an octal digit.
pub open spec fn is_octal(c: char) -> bool {
    '0' <= c && c <= '7'
}

/// How many octal digits (at most two) start `rest`.
pub open spec fn octal_tail(rest: Seq<char>) -> nat {
    if rest.len() > 0 && is_octal(rest[0]) {
        if rest.len() > 1 && is_octal(rest[1]) {
            2
        } else {
            1
        }
    } else {
        0
    }
}

/// The text produced by one step of unescaping, and how many characters it consumed.
pub open spec fn unescape_step(cs: Seq<char>) -> (Seq<char>, nat)
    recommends
        cs.len() > 0,
{
    if cs[0] != '\\' {
        (seq![cs[0]], 1)
    } else if cs.len() == 1 {
        (seq!['\\'], 1)
    } else {
        let e = cs[1];
        let rest = cs.skip(2);
        if e == 'a' {
            (seq!['\x07'], 2)
        } else if e == 'b' {
            (seq!['\x08'], 2)
        } else if e == 'f' {
            (seq!['\x0C'], 2)
        } else if e == 'n' {
            (seq!['\n'], 2)
        } else if e == 'r' {
            (seq!['\r'], 2)
        } else if e == 't' {
            (seq!['\t'], 2)
        } else if e == 'v' {
            (seq!['\x0B'], 2)
        } else if e == '\\' {
            (seq!['\\'], 2)
        } else if e == '"' {
            (seq!['"'], 2)
        } else if e == '\'' {
            (seq!['\''], 2)
        } else if e == 'x' {
            hex_escape(rest, 2, 0xFF, true)
        } else if e == 'u' {
            hex_escape(rest, 4, 0xFFFF_FFFF, false)
        } else if e == 'U' {
            hex_escape(rest, 8, 0xFFFF_FFFF, false)
        } else if is_octal(e) {
            let m = octal_tail(rest);
            let piece = match parse_radix(seq![e] + rest.take(m as int), 8, 0xFF) {
                Some(v) => seq![(v as u8) as char],
                None => Seq::empty(),
            };
            (piece, m + 2)
        } else {
            (seq!['\\', e], 2)
        }
    }
}

/// The step consumes at least one and at most all of the characters.
pub proof fn lemma_unescape_step_len(cs: Seq<char>)
    requires
        cs.len() > 0,
    ensures
        1 <= unescape_step(cs).1 <= cs.len(),
{
}

/// Unescaping a non-empty sequence is one step followed by the rest.
pub proof fn lemma_unescape_unfold(cs: Seq<char>)
    requires
        cs.len() > 0,
    ensures
        unescape(cs) == unescape_step(cs).0 + unescape(cs.skip(unescape_step(cs).1 as int)),
{
    lemma_unescape_step_len(cs);
}

/// Go string unescaping: every escape sequence replaced by what it stands for.
pub open spec fn unescape(cs: Seq<char>) -> Seq<char>
    decreases cs.len(),
{
    if cs.len() == 0 {
        Seq::empty()
    } else {
        let (piece, k) = unescape_step(cs);
        if 1 <= k <= cs.len() {
            piece + unescape(cs.skip(k as int))
        } else {
            Seq::empty()
        }
    }
}

/// The value of a string literal: its quotes removed and its escapes resolved.
pub open spec fn literal_value(raw: Seq<char>) -> Seq<char> {
    if raw.len() < 2 {
        Seq::empty()
    } else {
        unescape(raw.subrange(1, raw.len() - 1))
    }
}

/// Lower-case hexadecimal digit for a value below 16.
pub open spec fn hex_digit(d: nat) -> char {
    if d < 10 {
        (('0' as nat) + d) as char
    } else {
        (('a' as nat) + d - 10) as char
    }
}

/// Lower-case hexadecimal text of `v`, zero-padded to at least `w` digits.
pub open spec fn hex_text(v: nat, w: nat) -> Seq<char>
    decreases v + w,
{
    if v < 16 && w <= 1 {
        seq![hex_digit(v)]
    } else {
        hex_text(v / 16, if w == 0 {
            0
        } else {
            (w - 1) as nat
        }) + seq![hex_digit(v % 16)]
    }
}

/// The escaped form of one character inside an interpreted string literal.
pub open spec fn escape_char(c: char) -> Seq<char> {
    if c == '\\' {
        "\\\\"@
    } else if c == '"' {
        "\\\""@
    } else if c == '\x07' {
        "\\a"@
    } else if c == '\x08' {
        "\\b"@
    } else if c == '\x0C' {
        "\\f"@
    } else if c == '\n' {
        "\\n"@
    } else if c == '\r' {
        "\\r"@
    } else if c == '\t' {
        "\\t"@
    } else if c == '\x0B' {
        "\\v"@
    } else if is_control_char(c) {
        if (c as u32) <= 0xFF {
            "\\x"@ + hex_text(c as nat, 2)
        } else {
            "\\u"@ + hex_text(c as nat, 4)
        }
    } else {
        seq![c]
    }
}

/// The escaped form of a whole string.
pub open spec fn escape(s: Seq<char>) -> Seq<char>
    decreases s.len(),
{
    if s.len() == 0 {
        Seq::empty()
    } else {
        escape(s.drop_last()) + escape_char(s.last())
    }
}

/// The source text of the literal that `from_value` builds for `s`.
pub open spec fn quoted(s: Seq<char>) -> Seq<char> {
    "\""@ + escape(s) + "\""@
}

/// Hexadecimal text of `v`, zero-padded to at least `w` digits.
fn hex_string(v: u32, w: u32) -> (s: String)
    requires
        w <= 8,
    ensures
        s@ == hex_text(v as nat, w as nat),
    decreases v + w,
{
    if v < 16 && w <= 1 {
        let mut s = String::new();
        let c = if v < 10 {
            (('0' as u8) + (v as u8)) as char
        } else {
            (('a' as u8) + (v as u8) - 10) as char
        };
        push_char(&mut s, c);
        s
    } else {
        let w2 = if w == 0 {
            0
        } else {
            w - 1
        };
        let mut s = hex_string(v / 16, w2);
        let d = v % 16;
        let c = if d < 10 {
            (('0' as u8) + (d as u8)) as char
        } else {
            (('a' as u8) + (d as u8) - 10) as char
        };
        push_char(&mut s, c);
        s
    }
}

impl StringLit {
    /// Strips the surrounding quotes and resolves Go escape sequences:
    /// `\a \b \f \n \r \t \v \\ \" \'`, `\xNN`, `\uNNNN`, `\UNNNNNNNN` and `\NNN`
    /// (octal). An escape whose digits do not parse produces nothing; an unknown
    /// escape is kept as written.
    pub fn value(&self) -> (v: String)
        requires
            self.raw@.len() > 0 ==> (self.raw@[0] as u32) < 0x80 && (self.raw@.last() as u32)
                < 0x80,
        ensures
            v@ == literal_value(self.raw@),
    {
        let cs = chars_of(self.raw.as_str());
        let n = cs.len();
        let mut out = String::new();
        if n < 2 {
            return out;
        }
        let end = n - 1;
        let ghost inner = cs@.subrange(1, end as int);
        let mut i: usize = 1;
        assert(inner.skip(0) == inner);
        while i < end
            invariant
                1 <= i <= end,
                end + 1 == cs@.len(),
                inner == cs@.subrange(1, end as int),
                out@ + unescape(inner.skip(i - 1)) == unescape(inner),
            decreases end - i,
        {
            let ghost rem = inner.skip(i - 1);
            assert(rem == cs@.subrange(i as int, end as int));
            proof { lemma_unescape_unfold(rem); lemma_unescape_step_len(rem); }
            let (piece, k) = Self::decode_one(&cs, i, end);
            assert(rem.skip(k as int) =~= inner.skip(i - 1 + k));
            assert(out@ + (piece@ + unescape(rem.skip(k as int))) =~= (out@ + piece@) + unescape(
                rem.skip(k as int),
            ));
            out.append(piece.as_str());
            i = i + k;
        }
        assert(inner.skip(end - 1) == Seq::<char>::empty());
        assert(out@ + Seq::<char>::empty() == out@);
        out
    }

    /// Decodes the escape or character at `cs[i]`, reading no further than `end`.
    fn decode_one(cs: &Vec<char>, i: usize, end: usize) -> (r: (String, usize))
        requires
            1 <= i < end < cs@.len(),
        ensures
            (r.0@, r.1 as nat) == unescape_step(cs@.subrange(i as int, end as int)),
    {
        let ghost rem = cs@.subrange(i as int, end as int);
        let c = cs[i];
        let mut piece = String::new();
        if c != '\\' {
            push_char(&mut piece, c);
            return (piece, 1);
        }
        if i + 1 == end {
            push_char(&mut piece, '\\');
            return (piece, 1);
        }
        let e = cs[i + 1];
        let ghost rest = rem.skip(2);
        assert(rest == cs@.subrange(i + 2, end as int));
        let simple: Option<char> = if e == 'a' {
            Some('\x07')
        } else if e == 'b' {
            Some('\x08')
        } else if e == 'f' {
            Some('\x0C')
        } else if e == 'n' {
            Some('\n')
        } else if e == 'r' {
            Some('\r')
        } else if e == 't' {
            Some('\t')
        } else if e == 'v' {
            Some('\x0B')
        } else if e == '\\' {
            Some('\\')
        } else if e == '"' {
            Some('"')
        } else if e == '\'' {
            Some('\'')
        } else {
            None
        };
        if let Some(x) = simple {
            push_char(&mut piece, x);
            return (piece, 2);
        }
        if e == 'x' || e == 'u' || e == 'U' {
            let n: usize = if e == 'x' {
                2
            } else if e == 'u' {
                4
            } else {
                8
            };
            let avail = end - (i + 2);
            let k = if avail < n {
                avail
            } else {
                n
            };
            assert(rest.take(k as int) == cs@.subrange(i + 2, (i + 2 + k) as int));
            let max: u64 = if e == 'x' {
                0xFF
            } else {
                0xFFFF_FFFF
            };
            let parsed = parse_radix_chars(cs, i + 2, i + 2 + k, 16, max);
            if let Some(v) = parsed {
                if e == 'x' {
                    push_char(&mut piece, (v as u8) as char);
                } else if let Some(ch) = char_from_u32(v as u32) {
                    push_char(&mut piece, ch);
                }
            }
            return (piece, k + 2);
        }
        if '0' <= e && e <= '7' {
            let mut m: usize = 0;
            if i + 2 < end && '0' <= cs[i + 2] && cs[i + 2] <= '7' {
                m = 1;
                if i + 3 < end && '0' <= cs[i + 3] && cs[i + 3] <= '7' {
                    m = 2;
                }
            }
            assert(m == octal_tail(rest));
            assert(seq![e] + rest.take(m as int) == cs@.subrange(i + 1, (i + 2 + m) as int));
            let parsed = parse_radix_chars(cs, i + 1, i + 2 + m, 8, 0xFF);
            if let Some(v) = parsed {
                push_char(&mut piece, (v as u8) as char);
            }
            return (piece, m + 2);
        }
        push_char(&mut piece, '\\');
        push_char(&mut piece, e);
        (piece, 2)
    }

    /// Builds an interpreted string literal whose value is `s`: quotes added and
    /// special characters escaped (`\xNN` or `\uNNNN` for other control characters).
    pub fn from_value(s: &str) -> (lit: StringLit)
        ensures
            lit.raw@ == quoted(s@),
            lit.span == Span::spec_synthetic(),
    {
        let cs = chars_of(s);
        let mut escaped = String::new();
        escaped.append("\"");
        let mut i: usize = 0;
        while i < cs.len()
            invariant
                i <= cs@.len(),
                escaped@ == "\""@ + escape(cs@.subrange(0, i as int)),
            decreases cs.len() - i,
        {
            let c = cs[i];
            assert(cs@.subrange(0, i + 1).drop_last() == cs@.subrange(0, i as int));
            let piece = Self::escape_one(c);
            escaped.append(piece.as_str());
            i = i + 1;
        }
        assert(cs@.subrange(0, cs.len() as int) == cs@);
        escaped.append("\"");
        StringLit { raw: escaped, span: Span::synthetic() }
    }

    /// The escaped form of one character.
    fn escape_one(c: char) -> (s: String)
        ensures
            s@ == escape_char(c),
    {
        if c == '\\' {
            return "\\\\".to_string();
        } else if c == '"' {
            return "\\\"".to_string();
        } else if c == '\x07' {
            return "\\a".to_string();
        } else if c == '\x08' {
            return "\\b".to_string();
        } else if c == '\x0C' {
            return "\\f".to_string();
        } else if c == '\n' {
            return "\\n".to_string();
        } else if c == '\r' {
            return "\\r".to_string();
        } else if c == '\t' {
            return "\\t".to_string();
        } else if c == '\x0B' {
            return "\\v".to_string();
        } else if char_is_control(c) {
            let cp = c as u32;
            let mut s = String::new();
            if cp <= 0xFF {
                s.append("\\x");
                let h = hex_string(cp, 2);
                s.append(h.as_str());
            } else {
                s.append("\\u");
                let h = hex_string(cp, 4);
                s.append(h.as_str());
            }
            return s;
        }
        let mut s = String::new();
        push_char(&mut s, c);
        s
    }
}

/// Reading a hexadecimal digit back gives the value it was written for.
proof fn lemma_hex_digit_value(d: nat)
    requires
        d < 16,
    ensures
        digit_value(hex_digit(d), 16) == Some(d),
{
    if d < 10 {
        assert((('0' as nat) + d) as char as int == '0' as int + d);
    } else {
        assert((('a' as nat) + d - 10) as char as int == 'a' as int + d - 10);
    }
}

/// Two hexadecimal digits written for a byte read back as that byte.
proof fn lemma_hex_byte(v: nat)
    requires
        v <= 0xFF,
    ensures
        hex_text(v, 2).len() == 2,
        parse_radix(hex_text(v, 2), 16, 0xFF) == Some(v),
{
    let hi = v / 16;
    let lo = v % 16;
    assert(hex_text(hi, 1) == seq![hex_digit(hi)]);
    let t = hex_text(v, 2);
    assert(t =~= seq![hex_digit(hi), hex_digit(lo)]);
    lemma_hex_digit_value(hi);
    lemma_hex_digit_value(lo);
    assert(t[0] != '+') by {
        if hi < 10 {
            assert((('0' as nat) + hi) as char as int == '0' as int + hi);
        } else {
            assert((('a' as nat) + hi - 10) as char as int == 'a' as int + hi - 10);
        }
    }
    assert(all_digits(t, 16)) by {
        assert forall|i: int| 0 <= i < t.len() implies (#[trigger] digit_value(t[i], 16)) is Some by {
            if i == 0 {
                assert(t[i] == hex_digit(hi));
            } else {
                assert(t[i] == hex_digit(lo));
            }
        }
    }
    assert(t.drop_last() =~= seq![hex_digit(hi)]);
    assert(seq![hex_digit(hi)].drop_last() =~= Seq::<char>::empty());
    let one = seq![hex_digit(hi)];
    assert(one.last() == hex_digit(hi));
    assert(digits_value(one.drop_last(), 16) == 0);
    assert(digits_value(one, 16) == hi);
    assert(t.drop_last() == one);
    assert(t.last() == hex_digit(lo));
    assert(digits_value(t, 16) == digits_value(t.drop_last(), 16) * 16 + lo);
    assert(digits_value(t, 16) == hi * 16 + lo);
}

/// Unescaping the escaped form of one character, followed by anything, gives
/// the character followed by the unescaping of what follows.
proof fn lemma_unescape_escape_char(c: char, rest: Seq<char>)
    ensures
        unescape(escape_char(c) + rest) == seq![c] + unescape(rest),
{
    let piece = escape_char(c);
    let cs = piece + rest;
    reveal_strlit("\\\\");
    reveal_strlit("\\\"");
    reveal_strlit("\\a");
    reveal_strlit("\\b");
    reveal_strlit("\\f");
    reveal_strlit("\\n");
    reveal_strlit("\\r");
    reveal_strlit("\\t");
    reveal_strlit("\\v");
    reveal_strlit("\\x");
    assert(piece.len() > 0) by {
        if is_control_char(c) && !(c == '\\' || c == '"' || c == '\x07' || c == '\x08' || c == '\x0C' || c
            == '\n' || c == '\r' || c == '\t' || c == '\x0B') {
            assert((c as u32) <= 0xFF);
        }
    }
    lemma_unescape_unfold(cs);
    let step = unescape_step(cs);
    if c == '\\' || c == '"' || c == '\x07' || c == '\x08' || c == '\x0C' || c == '\n' || c == '\r' || c == '\t'
        || c == '\x0B' {
        assert(cs[0] == '\\');
        assert(cs[1] == piece[1]);
        assert(step == (seq![c], 2nat));
        assert(cs.skip(2) =~= rest);
    } else if is_control_char(c) {
        let v = c as nat;
        assert(v <= 0xFF);
        lemma_hex_byte(v);
        let h = hex_text(v, 2);
        assert(piece =~= "\\x"@ + h);
        assert(cs[0] == '\\');
        assert(cs[1] == 'x');
        assert(cs.skip(2) =~= h + rest);
        assert((h + rest).take(2) =~= h);
        assert((v as u8) == v);
        assert(((v as u8) as char) as u32 == v);
        assert(((v as u8) as char) == c);
        assert(step == (seq![c], 4nat));
        assert(cs.skip(4) =~= rest);
    } else {
        assert(piece == seq![c]);
        assert(cs[0] == c);
        assert(step == (seq![c], 1nat));
        assert(cs.skip(1) =~= rest);
    }
}

/// Escaping a non-empty string is escaping its first character, then the rest.
proof fn lemma_escape_front(s: Seq<char>)
    requires
        s.len() > 0,
    ensures
        escape(s) == escape_char(s[0]) + escape(s.drop_first()),
    decreases s.len(),
{
    if s.len() == 1 {
        assert(s.drop_last() =~= Seq::<char>::empty());
        assert(s.drop_first() =~= Seq::<char>::empty());
        assert(escape(s.drop_last()) == Seq::<char>::empty());
        assert(s.last() == s[0]);
        assert(escape(s) =~= escape_char(s[0]));
    } else {
        lemma_escape_front(s.drop_last());
        assert(s.drop_last().drop_first() =~= s.drop_first().drop_last());
        assert(s.drop_first().last() == s.last());
        assert(escape(s) =~= escape_char(s[0]) + escape(s.drop_first()));
    }
}

/// Unescaping undoes escaping.
pub proof fn lemma_unescape_escape(s: Seq<char>)
    ensures
        unescape(escape(s)) == s,
    decreases s.len(),
{
    if s.len() > 0 {
        lemma_escape_front(s);
        lemma_unescape_escape_char(s[0], escape(s.drop_first()));
        lemma_unescape_escape(s.drop_first());
        assert(seq![s[0]] + s.drop_first() =~= s);
    }
}

/// The value of the literal that `StringLit::from_value` builds for any text
/// is that text: `value` undoes `from_value`.
pub proof fn law_value_of_from_value(s: Seq<char>)
    ensures
        literal_value(quoted(s)) == s,
{
    reveal_strlit("\"");
    let q = quoted(s);
    assert(q.subrange(1, q.len() - 1) =~= escape(s));
    lemma_unescape_escape(s);
}

} // verus!
