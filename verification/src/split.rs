//! Searching and splitting text.

use vstd::prelude::*;

use crate::text;

verus! {

/// `needle` occurs in `hay`.
pub open spec fn contains(hay: Seq<char>, needle: Seq<char>) -> bool {
    exists|i: int|
        0 <= i <= hay.len() - needle.len() && #[trigger] hay.subrange(i, i + needle.len())
            == needle
}

/// `hay` begins with `needle`.
pub open spec fn starts_with(hay: Seq<char>, needle: Seq<char>) -> bool {
    needle.len() <= hay.len() && hay.take(needle.len() as int) == needle
}

/// The white space of Unicode.
pub open spec fn is_space(c: char) -> bool {
    let v = c as u32;
    ||| 0x9 <= v <= 0xd
    ||| v == 0x20
    ||| v == 0x85
    ||| v == 0xa0
    ||| v == 0x1680
    ||| 0x2000 <= v <= 0x200a
    ||| v == 0x2028
    ||| v == 0x2029
    ||| v == 0x202f
    ||| v == 0x205f
    ||| v == 0x3000
}

/// `s` without the white space at its start.
pub open spec fn trim_start(s: Seq<char>) -> Seq<char>
    decreases s.len(),
{
    if s.len() > 0 && is_space(s[0]) {
        trim_start(s.skip(1))
    } else {
        s
    }
}

/// `s` without the white space at its end.
pub open spec fn trim_end(s: Seq<char>) -> Seq<char>
    decreases s.len(),
{
    if s.len() > 0 && is_space(s.last()) {
        trim_end(s.drop_last())
    } else {
        s
    }
}

/// `s` without the white space at either end.
pub open spec fn trim(s: Seq<char>) -> Seq<char> {
    trim_end(trim_start(s))
}

/// How many characters come before the first white space.
pub open spec fn word_len(s: Seq<char>) -> nat
    decreases s.len(),
{
    if s.len() == 0 || is_space(s[0]) {
        0
    } else {
        1 + word_len(s.skip(1))
    }
}

/// The words of `s`, separated by any amount of white space.
pub open spec fn words(s: Seq<char>) -> Seq<Seq<char>>
    decreases s.len(),
{
    if s.len() == 0 {
        seq![]
    } else if is_space(s[0]) {
        words(s.skip(1))
    } else {
        let n = (1 + word_len(s.skip(1))) as int;
        proof {
            lemma_word_len_bound(s.skip(1));
        }
        seq![s.take(n)] + words(s.skip(n))
    }
}

/// How many characters come before the first line feed.
pub open spec fn line_len(s: Seq<char>) -> nat
    decreases s.len(),
{
    if s.len() == 0 || s[0] == '\n' {
        0
    } else {
        1 + line_len(s.skip(1))
    }
}

/// A line without the carriage return that may end it.
pub open spec fn without_return(s: Seq<char>) -> Seq<char> {
    if s.len() > 0 && s.last() == '\r' {
        s.drop_last()
    } else {
        s
    }
}

/// The lines of `s`. A line ends in a line feed, or in a carriage return and a
/// line feed; the last line may lack its ending.
pub open spec fn lines(s: Seq<char>) -> Seq<Seq<char>>
    decreases s.len(),
{
    let n = line_len(s) as int;
    if s.len() == 0 {
        seq![]
    } else if n >= s.len() {
        seq![s]
    } else {
        seq![without_return(s.take(n))] + lines(s.skip(n + 1))
    }
}

/// The contents of a list of strings.
pub open spec fn texts(v: Seq<String>) -> Seq<Seq<char>> {
    Seq::new(v.len(), |i: int| v[i]@)
}

/// A word is no longer than the text it starts.
pub proof fn lemma_word_len_bound(s: Seq<char>)
    ensures
        word_len(s) <= s.len(),
    decreases s.len(),
{
    if s.len() > 0 && !is_space(s[0]) {
        lemma_word_len_bound(s.skip(1));
    }
}

proof fn lemma_word_len(s: Seq<char>, n: nat)
    requires
        n <= s.len(),
        forall|i: int| 0 <= i < n ==> !is_space(s[i]),
        n == s.len() || is_space(s[n as int]),
    ensures
        word_len(s) == n,
    decreases n,
{
    if n > 0 {
        lemma_word_len(s.skip(1), (n - 1) as nat);
    }
}

proof fn lemma_line_len(s: Seq<char>, n: nat)
    requires
        n <= s.len(),
        forall|i: int| 0 <= i < n ==> s[i] != '\n',
        n == s.len() || s[n as int] == '\n',
    ensures
        line_len(s) == n,
    decreases n,
{
    if n > 0 {
        lemma_line_len(s.skip(1), (n - 1) as nat);
    }
}

/// `a` comes before `b` in the order of their characters, or is the same text.
/// A text comes before its continuations.
pub open spec fn in_order(a: Seq<char>, b: Seq<char>) -> bool
    decreases a.len(),
{
    if a.len() == 0 {
        true
    } else if b.len() == 0 {
        false
    } else if a[0] != b[0] {
        a[0] < b[0]
    } else {
        in_order(a.skip(1), b.skip(1))
    }
}

/// No text comes before one that stands earlier in the list.
pub open spec fn ascending(v: Seq<Seq<char>>) -> bool {
    forall|i: int, j: int| 0 <= i < j < v.len() ==> in_order(#[trigger] v[i], #[trigger] v[j])
}

/// Of two texts, one comes before the other, or they are the same.
pub proof fn lemma_order_is_total(a: Seq<char>, b: Seq<char>)
    ensures
        in_order(a, b) || in_order(b, a),
        in_order(a, b) && in_order(b, a) ==> a == b,
    decreases a.len(),
{
    if a.len() > 0 && b.len() > 0 {
        if a[0] == b[0] {
            lemma_order_is_total(a.skip(1), b.skip(1));
            assert(a =~= seq![a[0]] + a.skip(1));
            assert(b =~= seq![b[0]] + b.skip(1));
        }
    } else if a.len() == 0 && b.len() == 0 {
        assert(a =~= b);
    }
}

/// The order carries over from one text to the next.
pub proof fn lemma_order_is_transitive(a: Seq<char>, b: Seq<char>, c: Seq<char>)
    requires
        in_order(a, b),
        in_order(b, c),
    ensures
        in_order(a, c),
    decreases a.len(),
{
    if a.len() > 0 && a[0] == b[0] && b[0] == c[0] {
        lemma_order_is_transitive(a.skip(1), b.skip(1), c.skip(1));
    }
}

/// Whether `a` comes before `b` or is the same text.
pub fn are_in_order(a: &str, b: &str) -> (r: bool)
    ensures
        r == in_order(a@, b@),
{
    let x: Vec<char> = text::chars_of(a);
    let y: Vec<char> = text::chars_of(b);
    let mut i: usize = 0;
    assert(a@.skip(0) =~= a@);
    assert(b@.skip(0) =~= b@);
    while i < x.len() && i < y.len() && x[i] == y[i]
        invariant
            x@ == a@,
            y@ == b@,
            i <= x@.len(),
            i <= y@.len(),
            in_order(a@, b@) == in_order(a@.skip(i as int), b@.skip(i as int)),
        decreases x.len() - i,
    {
        assert(a@.skip(i as int).skip(1) =~= a@.skip(i + 1));
        assert(b@.skip(i as int).skip(1) =~= b@.skip(i + 1));
        i += 1;
    }
    if i == x.len() {
        true
    } else if i == y.len() {
        false
    } else {
        x[i] < y[i]
    }
}

/// Whether `c` is white space.
pub fn is_white_space(c: char) -> (r: bool)
    ensures
        r == is_space(c),
{
    let v: u32 = c as u32;
    (0x9 <= v && v <= 0xd) || v == 0x20 || v == 0x85 || v == 0xa0 || v == 0x1680 || (0x2000 <= v
        && v <= 0x200a) || v == 0x2028 || v == 0x2029 || v == 0x202f || v == 0x205f || v == 0x3000
}

/// Whether the characters of `needle` stand in `hay` at position `at`.
fn occurs_at(hay: &[char], needle: &[char], at: usize) -> (r: bool)
    requires
        at + needle@.len() <= hay@.len(),
    ensures
        r == (hay@.subrange(at as int, at + needle@.len()) == needle@),
{
    let n: usize = needle.len();
    let size: usize = hay.len();
    let mut i: usize = 0;
    while i < n
        invariant
            i <= n,
            n == needle@.len(),
            size == hay@.len(),
            at + n <= size,
            forall|j: int| 0 <= j < i ==> hay@[at + j] == needle@[j],
        decreases n - i,
    {
        if hay[at + i] != needle[i] {
            assert(hay@.subrange(at as int, at + n)[i as int] != needle@[i as int]);
            return false;
        }
        i += 1;
    }
    assert(hay@.subrange(at as int, at + n) =~= needle@);
    true
}

/// Whether `needle` occurs in `hay`.
pub fn has_text(hay: &str, needle: &str) -> (r: bool)
    ensures
        r == contains(hay@, needle@),
{
    let h: Vec<char> = text::chars_of(hay);
    let n: Vec<char> = text::chars_of(needle);
    if n.len() > h.len() {
        return false;
    }
    let last: usize = h.len() - n.len();
    let mut i: usize = 0;
    while i <= last
        invariant
            h@ == hay@,
            n@ == needle@,
            last == h@.len() - n@.len(),
            i <= last + 1,
            forall|j: int| 0 <= j < i ==> #[trigger] hay@.subrange(j, j + needle@.len()) != needle@,
        decreases last + 1 - i,
    {
        if occurs_at(&h, &n, i) {
            return true;
        }
        if i == last {
            return false;
        }
        i += 1;
    }
    false
}

/// Whether `hay` begins with `needle`.
pub fn begins_with(hay: &str, needle: &str) -> (r: bool)
    ensures
        r == starts_with(hay@, needle@),
{
    let h: Vec<char> = text::chars_of(hay);
    let n: Vec<char> = text::chars_of(needle);
    if n.len() > h.len() {
        return false;
    }
    assert(hay@.take(needle@.len() as int) =~= hay@.subrange(0, needle@.len() as int));
    occurs_at(&h, &n, 0)
}

/// `s` without the white space at either end.
pub fn trimmed(s: &str) -> (r: String)
    ensures
        r@ == trim(s@),
{
    let c: Vec<char> = text::chars_of(s);
    let mut from: usize = 0;
    assert(s@.skip(0) =~= s@);
    while from < c.len() && is_white_space(c[from])
        invariant
            c@ == s@,
            from <= c@.len(),
            trim_start(s@) == trim_start(s@.skip(from as int)),
        decreases c.len() - from,
    {
        assert(s@.skip(from as int).skip(1) =~= s@.skip(from + 1));
        from += 1;
    }
    assert(trim_start(s@) =~= s@.skip(from as int));
    let mut to: usize = c.len();
    let ghost rest = s@.skip(from as int);
    assert(rest.take(to - from) =~= rest);
    while to > from && is_white_space(c[to - 1])
        invariant
            c@ == s@,
            from <= to <= c@.len(),
            rest == s@.skip(from as int),
            trim_end(rest) == trim_end(rest.take(to - from)),
        decreases to,
    {
        assert(rest.take(to - from).drop_last() =~= rest.take(to - from - 1));
        to -= 1;
    }
    assert(rest.take(to - from) =~= s@.subrange(from as int, to as int));
    text::text_of(&c, from, to)
}

/// The words of `s`.
pub fn split_words(s: &str) -> (r: Vec<String>)
    ensures
        texts(r@) == words(s@),
{
    let c: Vec<char> = text::chars_of(s);
    let mut out: Vec<String> = Vec::new();
    let mut i: usize = 0;
    assert(s@.skip(0) =~= s@);
    assert(texts(out@) + words(s@) =~= words(s@));
    while i < c.len()
        invariant
            c@ == s@,
            i <= c@.len(),
            texts(out@) + words(s@.skip(i as int)) == words(s@),
        decreases c.len() - i,
    {
        let ghost rest = s@.skip(i as int);
        if is_white_space(c[i]) {
            assert(rest.skip(1) =~= s@.skip(i + 1));
            i += 1;
        } else {
            let start: usize = i;
            i += 1;
            while i < c.len() && !is_white_space(c[i])
                invariant
                    c@ == s@,
                    start < i <= c@.len(),
                    forall|j: int| start < j < i ==> !is_space(#[trigger] s@[j]),
                decreases c.len() - i,
            {
                i += 1;
            }
            proof {
                lemma_word_len(rest.skip(1), (i - start - 1) as nat);
                assert(rest.take(i - start) =~= s@.subrange(start as int, i as int));
                assert(rest.skip(i - start) =~= s@.skip(i as int));
            }
            let ghost before = texts(out@);
            out.push(text::text_of(&c, start, i));
            assert(texts(out@) =~= before.push(s@.subrange(start as int, i as int)));
            assert(texts(out@) + words(s@.skip(i as int)) =~= before + words(rest));
        }
    }
    assert(texts(out@) + words(s@.skip(i as int)) =~= texts(out@));
    out
}

/// The lines of `s`.
pub fn split_lines(s: &str) -> (r: Vec<String>)
    ensures
        texts(r@) == lines(s@),
{
    let c: Vec<char> = text::chars_of(s);
    let mut out: Vec<String> = Vec::new();
    let mut i: usize = 0;
    assert(s@.skip(0) =~= s@);
    assert(texts(out@) + lines(s@) =~= lines(s@));
    while i < c.len()
        invariant
            c@ == s@,
            i <= c@.len(),
            texts(out@) + lines(s@.skip(i as int)) == lines(s@),
        decreases c.len() - i,
    {
        let ghost rest = s@.skip(i as int);
        let ghost before = texts(out@);
        let start: usize = i;
        while i < c.len() && c[i] != '\n'
            invariant
                c@ == s@,
                start <= i <= c@.len(),
                forall|j: int| start <= j < i ==> #[trigger] s@[j] != '\n',
            decreases c.len() - i,
        {
            i += 1;
        }
        proof {
            lemma_line_len(rest, (i - start) as nat);
        }
        if i == c.len() {
            out.push(text::text_of(&c, start, i));
            assert(rest =~= s@.subrange(start as int, i as int));
            assert(texts(out@) =~= before.push(rest));
            assert(texts(out@) + lines(s@.skip(i as int)) =~= before + lines(rest));
        } else {
            let end: usize = if i > start && c[i - 1] == '\r' {
                i - 1
            } else {
                i
            };
            out.push(text::text_of(&c, start, end));
            proof {
                let line = rest.take(i - start);
                assert(without_return(line) =~= s@.subrange(start as int, end as int));
                assert(texts(out@) =~= before.push(without_return(line)));
                assert(rest.skip(i - start + 1) =~= s@.skip(i + 1));
            }
            i += 1;
            assert(texts(out@) + lines(s@.skip(i as int)) =~= before + lines(rest));
        }
    }
    assert(texts(out@) + lines(s@.skip(i as int)) =~= texts(out@));
    out
}

} // verus!
