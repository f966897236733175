//! Text building blocks: numbers, padding, searching and splitting.
//!
//! Text is a sequence of characters; every function here says exactly which
//! sequence it makes.

use vstd::prelude::*;
use vstd::string::StringExecFns;

verus! {

/// `String::push` appends one character.
pub assume_specification[ String::push ](s: &mut String, c: char)
    ensures
        final(s)@ == old(s)@.push(c),
;

/// `n` copies of `c`.
pub open spec fn repeat(c: char, n: nat) -> Seq<char> {
    Seq::new(n, |i: int| c)
}

/// `s`, filled up with spaces on the right to at least `width` characters.
pub open spec fn pad_right(s: Seq<char>, width: nat) -> Seq<char> {
    if s.len() < width {
        s + repeat(' ', (width - s.len()) as nat)
    } else {
        s
    }
}

/// `s`, filled up with spaces on the left to at least `width` characters.
pub open spec fn pad_left(s: Seq<char>, width: nat) -> Seq<char> {
    if s.len() < width {
        repeat(' ', (width - s.len()) as nat) + s
    } else {
        s
    }
}

/// The decimal digit `d`.
pub open spec fn digit(d: nat) -> char {
    (48 + d) as char
}

/// `n` in decimal, without leading zeros.
pub open spec fn decimal(n: nat) -> Seq<char>
    decreases n,
{
    if n < 10 {
        seq![digit(n)]
    } else {
        decimal(n / 10).push(digit(n % 10))
    }
}

/// `n` in decimal, with a minus sign if it is negative.
pub open spec fn decimal_int(n: int) -> Seq<char> {
    if n < 0 {
        seq!['-'] + decimal((-n) as nat)
    } else {
        decimal(n as nat)
    }
}

/// `n` in decimal, always with a sign.
pub open spec fn decimal_signed(n: int) -> Seq<char> {
    if n < 0 {
        seq!['-'] + decimal((-n) as nat)
    } else {
        seq!['+'] + decimal(n as nat)
    }
}

/// `n` copies of `c`.
pub fn repeat_char(c: char, n: usize) -> (r: String)
    ensures
        r@ == repeat(c, n as nat),
{
    let mut r: String = String::new();
    let mut i: usize = 0;
    while i < n
        invariant
            i <= n,
            r@ == repeat(c, i as nat),
        decreases n - i,
    {
        r.push(c);
        i += 1;
        assert(repeat(c, i as nat) =~= repeat(c, (i - 1) as nat).push(c));
    }
    r
}

/// The characters of `s`.
pub fn chars_of(s: &str) -> (r: Vec<char>)
    ensures
        r@ == s@,
{
    let mut r: Vec<char> = Vec::new();
    for c in it: s.chars()
        invariant
            it.seq() == s@,
            r@ == s@.take(it.index()),
    {
        r.push(c);
        assert(s@.take(it.index() + 1) =~= s@.take(it.index()).push(s@[it.index()]));
    }
    assert(r@ =~= s@);
    r
}

/// The text made of the characters `from` up to, not including, `to`.
pub fn text_of(chars: &[char], from: usize, to: usize) -> (r: String)
    requires
        from <= to <= chars@.len(),
    ensures
        r@ == chars@.subrange(from as int, to as int),
{
    let mut r: String = String::new();
    let mut i: usize = from;
    while i < to
        invariant
            from <= i <= to <= chars@.len(),
            r@ == chars@.subrange(from as int, i as int),
        decreases to - i,
    {
        r.push(chars[i]);
        i += 1;
        assert(chars@.subrange(from as int, i as int) =~= chars@.subrange(
            from as int,
            i - 1,
        ).push(chars@[i - 1]));
    }
    r
}

/// Whether two texts are the same.
pub fn same_text(a: &str, b: &str) -> (r: bool)
    ensures
        r == (a@ == b@),
{
    let x: Vec<char> = chars_of(a);
    let y: Vec<char> = chars_of(b);
    if x.len() != y.len() {
        return false;
    }
    let mut i: usize = 0;
    while i < x.len()
        invariant
            x@ == a@,
            y@ == b@,
            i <= x@.len(),
            x@.len() == y@.len(),
            forall|j: int| 0 <= j < i ==> x@[j] == y@[j],
        decreases x@.len() - i,
    {
        if x[i] != y[i] {
            return false;
        }
        i += 1;
    }
    assert(a@ =~= b@);
    true
}

/// Fills `s` up with spaces on the right.
pub fn padded_right(s: &str, width: usize) -> (r: String)
    ensures
        r@ == pad_right(s@, width as nat),
{
    let n: usize = s.unicode_len();
    let mut r: String = s.to_owned();
    if n < width {
        r.append(repeat_char(' ', width - n).as_str());
    }
    r
}

/// Fills `s` up with spaces on the left.
pub fn padded_left(s: &str, width: usize) -> (r: String)
    ensures
        r@ == pad_left(s@, width as nat),
{
    let n: usize = s.unicode_len();
    if n < width {
        let mut r: String = repeat_char(' ', width - n);
        r.append(s);
        r
    } else {
        s.to_owned()
    }
}

/// `n` in decimal.
pub fn decimal_text(n: u128) -> (r: String)
    ensures
        r@ == decimal(n as nat),
    decreases n,
{
    let mut r: String = if n < 10 {
        String::new()
    } else {
        decimal_text(n / 10)
    };
    let d: u8 = (n % 10) as u8;
    r.push((48 + d) as char);
    assert(n < 10 ==> r@ =~= decimal(n as nat));
    r
}

/// `n` in decimal, with a minus sign if it is negative.
pub fn decimal_int_text(n: i128) -> (r: String)
    ensures
        r@ == decimal_int(n as int),
{
    if n < 0 {
        let mut r: String = String::new();
        r.push('-');
        let magnitude: u128 = (-(n + 1)) as u128 + 1;
        r.append(decimal_text(magnitude).as_str());
        assert(r@ =~= decimal_int(n as int));
        r
    } else {
        decimal_text(n as u128)
    }
}

/// `n` in decimal, always with a sign.
pub fn decimal_signed_text(n: i128) -> (r: String)
    ensures
        r@ == decimal_signed(n as int),
{
    let mut r: String = String::new();
    if n < 0 {
        r.push('-');
        let magnitude: u128 = (-(n + 1)) as u128 + 1;
        r.append(decimal_text(magnitude).as_str());
    } else {
        r.push('+');
        r.append(decimal_text(n as u128).as_str());
    }
    assert(r@ =~= decimal_signed(n as int));
    r
}

/// `true` or `false`.
pub open spec fn bool_word(b: bool) -> Seq<char> {
    if b {
        "true"@
    } else {
        "false"@
    }
}

/// `true` or `false`.
pub fn bool_text(b: bool) -> (r: String)
    ensures
        r@ == bool_word(b),
{
    if b {
        "true".to_owned()
    } else {
        "false".to_owned()
    }
}

/// The text that bytes spell, or a placeholder if they are not UTF-8.
pub open spec fn utf8_or_placeholder(bytes: Seq<u8>) -> Seq<char> {
    if vstd::utf8::valid_utf8(bytes) {
        vstd::utf8::decode_utf8(bytes)
    } else {
        "<non-utf8>"@
    }
}

/// Calls `core::str::from_utf8`, which succeeds exactly on valid UTF-8 and
/// then gives the text that the bytes encode.
#[verifier::external_body]
fn decode_utf8(bytes: &[u8]) -> (r: Option<String>)
    ensures
        r is Some <==> vstd::utf8::valid_utf8(bytes@),
        r matches Some(t) ==> t@ == vstd::utf8::decode_utf8(bytes@),
{
    core::str::from_utf8(bytes).ok().map(|t| t.to_owned())
}

/// The text that bytes spell, or a placeholder if they are not UTF-8.
pub fn utf8_text(bytes: &[u8]) -> (r: String)
    ensures
        r@ == utf8_or_placeholder(bytes@),
{
    match decode_utf8(bytes) {
        Some(t) => t,
        None => "<non-utf8>".to_owned(),
    }
}

/// A quoted text, with special characters escaped, as `{:?}` writes it.
pub uninterp spec fn quoted_text(s: Seq<char>) -> Seq<char>;

/// Calls `format!` with `{:?}` on a string, whose result is a function of the
/// string.
#[verifier::external_body]
pub(crate) fn quoted(s: &str) -> (r: String)
    ensures
        r@ == quoted_text(s@),
{
    format!("{:?}", s)
}

/// Bytes in decimal, separated by commas.
pub open spec fn comma_list(v: Seq<u8>) -> Seq<char>
    decreases v.len(),
{
    if v.len() == 0 {
        seq![]
    } else if v.len() == 1 {
        decimal(v[0] as nat)
    } else {
        comma_list(v.drop_last()) + ", "@ + decimal(v.last() as nat)
    }
}

/// Bytes in decimal, separated by commas.
pub fn comma_text(v: &[u8]) -> (r: String)
    ensures
        r@ == comma_list(v@),
{
    let mut r: String = String::new();
    let mut i: usize = 0;
    assert(v@.take(0) =~= seq![]);
    while i < v.len()
        invariant
            i <= v@.len(),
            r@ == comma_list(v@.take(i as int)),
        decreases v@.len() - i,
    {
        assert(v@.take(i + 1).drop_last() =~= v@.take(i as int));
        if i > 0 {
            r.append(", ");
        }
        r.append(decimal_text(v[i] as u128).as_str());
        assert(i == 0 ==> r@ =~= decimal(v@[0] as nat));
        i += 1;
    }
    assert(v@.take(i as int) =~= v@);
    r
}

} // verus!
