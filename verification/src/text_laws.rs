//! What holds of numbers, columns, words and lines as text.

use vstd::prelude::*;

use crate::bytes;
use crate::split;
use crate::text;

verus! {

/// The number that decimal digits stand for.
pub open spec fn value_of(digits: Seq<char>) -> nat
    decreases digits.len(),
{
    if digits.len() == 0 {
        0
    } else {
        10 * value_of(digits.drop_last()) + (digits.last() as nat - 48) as nat
    }
}

/// A number is written in decimal digits, read back as the same number, and
/// starts with a zero only if it is zero.
pub proof fn numbers_read_back(n: nat)
    ensures
        value_of(text::decimal(n)) == n,
        text::decimal(n).len() > 0,
        forall|i: int| 0 <= i < text::decimal(n).len() ==> '0' <= #[trigger] text::decimal(n)[i] <= '9',
        n > 0 ==> text::decimal(n)[0] != '0',
    decreases n,
{
    reveal_with_fuel(value_of, 2);
    if n >= 10 {
        numbers_read_back(n / 10);
        let d = text::decimal(n);
        assert(d.drop_last() =~= text::decimal(n / 10));
    } else {
        let d = text::decimal(n);
        assert(d.drop_last() =~= seq![]);
    }
}

/// Two numbers that are written alike are the same.
pub proof fn numbers_are_told_apart(a: nat, b: nat)
    requires
        text::decimal(a) == text::decimal(b),
    ensures
        a == b,
{
    numbers_read_back(a);
    numbers_read_back(b);
}

/// A negative number is written with a minus sign before its magnitude; any
/// other without a sign, or with a plus where a sign is always written.
pub proof fn signs_are_written(n: nat)
    ensures
        text::decimal_int(n as int) == text::decimal(n),
        text::decimal_signed(n as int) == seq!['+'] + text::decimal(n),
        n > 0 ==> text::decimal_int(-(n as int)) == seq!['-'] + text::decimal(n),
        n > 0 ==> text::decimal_signed(-(n as int)) == seq!['-'] + text::decimal(n),
{
}

/// A text in a column keeps its characters, at the start or at the end, and is
/// filled up with spaces to the width of the column.
pub proof fn columns_are_filled_with_spaces(s: Seq<char>, width: nat)
    ensures
        ({
            let left = text::pad_right(s, width);
            let right = text::pad_left(s, width);
            let n = if s.len() < width {
                width
            } else {
                s.len()
            };
            &&& left.len() == n
            &&& right.len() == n
            &&& left.take(s.len() as int) == s
            &&& right.skip(n - s.len()) == s
            &&& forall|i: int| s.len() <= i < n ==> #[trigger] left[i] == ' '
            &&& forall|i: int| 0 <= i < n - s.len() ==> #[trigger] right[i] == ' '
        }),
{
    let left = text::pad_right(s, width);
    let right = text::pad_left(s, width);
    assert(left.take(s.len() as int) =~= s);
    assert(right.skip(right.len() - s.len()) =~= s);
}

/// A character is repeated as often as asked.
pub proof fn characters_are_repeated(c: char, n: nat)
    ensures
        text::repeat(c, n).len() == n,
        forall|i: int| 0 <= i < n ==> #[trigger] text::repeat(c, n)[i] == c,
{
}

/// Bytes are listed in decimal, in their order, with a comma and a space between
/// any two.
pub proof fn bytes_are_listed(front: Seq<u8>, b: u8)
    ensures
        text::comma_list(seq![]) == Seq::<char>::empty(),
        text::comma_list(seq![b]) == text::decimal(b as nat),
        front.len() > 0 ==> text::comma_list(front.push(b)) == text::comma_list(front) + ", "@
            + text::decimal(b as nat),
{
    if front.len() > 0 {
        assert(front.push(b).drop_last() =~= front);
    }
}

/// A truth value is written as the word for it.
pub proof fn truth_is_written(b: bool)
    ensures
        b ==> text::bool_word(b) == "true"@,
        !b ==> text::bool_word(b) == "false"@,
{
}

/// Bytes that are text are shown as that text, and others as a placeholder.
pub proof fn text_is_shown_as_text(t: Seq<char>, b: Seq<u8>)
    ensures
        text::utf8_or_placeholder(vstd::utf8::encode_utf8(t)) == t,
        !vstd::utf8::valid_utf8(b) ==> text::utf8_or_placeholder(b) == "<non-utf8>"@,
{
    vstd::utf8::encode_utf8_valid_utf8(t);
    vstd::utf8::encode_utf8_decode_utf8(t);
}

/// A text occurs in another exactly if it stands between a front and a rest.
pub proof fn occurrences_have_a_place(hay: Seq<char>, needle: Seq<char>)
    ensures
        split::contains(hay, needle) <==> exists|front: Seq<char>, rest: Seq<char>|
            hay == #[trigger] (front + needle + rest),
        split::starts_with(hay, needle) <==> exists|rest: Seq<char>|
            hay == #[trigger] (needle + rest),
{
    if split::contains(hay, needle) {
        let i = choose|i: int|
            0 <= i <= hay.len() - needle.len() && #[trigger] hay.subrange(i, i + needle.len())
                == needle;
        assert(hay =~= hay.take(i) + hay.subrange(i, i + needle.len()) + hay.skip(i + needle.len()));
    }
    if exists|front: Seq<char>, rest: Seq<char>| hay == #[trigger] (front + needle + rest) {
        let (front, rest) = choose|front: Seq<char>, rest: Seq<char>|
            hay == #[trigger] (front + needle + rest);
        let i = front.len() as int;
        assert(hay.subrange(i, i + needle.len()) =~= needle);
    }
    if split::starts_with(hay, needle) {
        assert(hay =~= needle + hay.skip(needle.len() as int));
    }
    if exists|rest: Seq<char>| hay == #[trigger] (needle + rest) {
        assert(hay.take(needle.len() as int) =~= needle);
    }
}

/// Only white space.
pub open spec fn all_space(s: Seq<char>) -> bool {
    forall|i: int| 0 <= i < s.len() ==> split::is_space(#[trigger] s[i])
}

/// No white space.
pub open spec fn no_space(s: Seq<char>) -> bool {
    forall|i: int| 0 <= i < s.len() ==> !split::is_space(#[trigger] s[i])
}

/// The white space of ASCII is white space; letters, digits and signs are not.
pub proof fn white_space_is_white_space(c: char)
    ensures
        c == ' ' || c == '\t' || c == '\n' || c == '\r' ==> split::is_space(c),
        '!' <= c <= '~' ==> !split::is_space(c),
{
}

proof fn lemma_trim_start(s: Seq<char>) -> (front: Seq<char>)
    ensures
        s == front + split::trim_start(s),
        all_space(front),
        split::trim_start(s).len() > 0 ==> !split::is_space(split::trim_start(s)[0]),
    decreases s.len(),
{
    if s.len() > 0 && split::is_space(s[0]) {
        let rest = lemma_trim_start(s.skip(1));
        let front = seq![s[0]] + rest;
        assert(s =~= seq![s[0]] + s.skip(1));
        assert(split::trim_start(s) == split::trim_start(s.skip(1)));
        assert(seq![s[0]] + (rest + split::trim_start(s)) =~= front + split::trim_start(s));
        front
    } else {
        assert(s =~= seq![] + s);
        seq![]
    }
}

proof fn lemma_trim_end(s: Seq<char>) -> (back: Seq<char>)
    ensures
        s == split::trim_end(s) + back,
        all_space(back),
        split::trim_end(s).len() > 0 ==> !split::is_space(split::trim_end(s).last()),
    decreases s.len(),
{
    if s.len() > 0 && split::is_space(s.last()) {
        let rest = lemma_trim_end(s.drop_last());
        let back = rest.push(s.last());
        assert(s =~= s.drop_last().push(s.last()));
        assert(split::trim_end(s) == split::trim_end(s.drop_last()));
        assert((split::trim_end(s) + rest).push(s.last()) =~= split::trim_end(s) + back);
        back
    } else {
        assert(s =~= s + seq![]);
        seq![]
    }
}

/// Trimming takes away white space at both ends, all of it, and nothing else.
pub proof fn trimming_takes_white_space_only(s: Seq<char>)
    ensures
        exists|front: Seq<char>, back: Seq<char>|
            #![trigger front + split::trim(s) + back]
            s == front + split::trim(s) + back && all_space(front) && all_space(back),
        split::trim(s).len() > 0 ==> !split::is_space(split::trim(s)[0]) && !split::is_space(
            split::trim(s).last(),
        ),
{
    let front = lemma_trim_start(s);
    let middle = split::trim_start(s);
    let back = lemma_trim_end(middle);
    assert(s =~= front + split::trim(s) + back);
    if split::trim(s).len() > 0 {
        assert(split::trim(s)[0] == middle[0]);
    }
}

proof fn lemma_word_len_of(w: Seq<char>, rest: Seq<char>)
    requires
        no_space(w),
        rest.len() == 0 || split::is_space(rest[0]),
    ensures
        split::word_len(w + rest) == w.len(),
    decreases w.len(),
{
    if w.len() > 0 {
        lemma_word_len_of(w.skip(1), rest);
        assert((w + rest).skip(1) =~= w.skip(1) + rest);
        assert(!split::is_space((w + rest)[0]));
    } else {
        assert(w + rest =~= rest);
    }
}

/// The words of a text are its runs without white space, in order: white space
/// in front does not count, and a run that ends in white space or at the end of
/// the text is the first word.
pub proof fn words_are_runs_without_white_space(space: char, w: Seq<char>, rest: Seq<char>)
    ensures
        split::words(seq![]) == Seq::<Seq<char>>::empty(),
        split::is_space(space) ==> split::words(seq![space] + rest) == split::words(rest),
        w.len() > 0 && no_space(w) && (rest.len() == 0 || split::is_space(rest[0])) ==> split::words(
            w + rest,
        ) == seq![w] + split::words(rest),
{
    if split::is_space(space) {
        assert((seq![space] + rest).skip(1) =~= rest);
    }
    if w.len() > 0 && no_space(w) && (rest.len() == 0 || split::is_space(rest[0])) {
        let s = w + rest;
        lemma_word_len_of(w.skip(1), rest);
        assert(s.skip(1) =~= w.skip(1) + rest);
        assert(s[0] == w[0]);
        let n = w.len() as int;
        assert(s.take(n) =~= w);
        assert(s.skip(n) =~= rest);
    }
}

proof fn lemma_line_len_of(l: Seq<char>, rest: Seq<char>)
    requires
        forall|i: int| 0 <= i < l.len() ==> l[i] != '\n',
        rest.len() == 0 || rest[0] == '\n',
    ensures
        split::line_len(l + rest) == l.len(),
    decreases l.len(),
{
    if l.len() > 0 {
        lemma_line_len_of(l.skip(1), rest);
        assert((l + rest).skip(1) =~= l.skip(1) + rest);
        assert((l + rest)[0] == l[0]);
    } else {
        assert(l + rest =~= rest);
    }
}

/// The lines of a text end in a line feed, and a carriage return before it
/// belongs to the end; the last line may lack its end.
pub proof fn lines_end_in_line_feeds(l: Seq<char>, rest: Seq<char>)
    requires
        forall|i: int| 0 <= i < l.len() ==> l[i] != '\n',
    ensures
        split::lines(seq![]) == Seq::<Seq<char>>::empty(),
        l.len() > 0 ==> split::lines(l) == seq![l],
        l.len() == 0 || l.last() != '\r' ==> split::lines(l + seq!['\n'] + rest) == seq![l]
            + split::lines(rest),
        l.len() > 0 && l.last() == '\r' ==> split::lines(l + seq!['\n'] + rest) == seq![l.drop_last()]
            + split::lines(rest),
{
    lemma_line_len_of(l, seq![]);
    assert(l + seq![] =~= l);
    let s = l + seq!['\n'] + rest;
    lemma_line_len_of(l, seq!['\n'] + rest);
    assert(s =~= l + (seq!['\n'] + rest));
    let n = l.len() as int;
    assert(s.take(n) =~= l);
    assert(s.skip(n + 1) =~= rest);
}

/// Texts are ordered by the first character in which they differ; a text comes
/// before its continuations.
pub proof fn the_first_difference_decides(
    common: Seq<char>,
    a: char,
    b: char,
    x: Seq<char>,
    y: Seq<char>,
)
    ensures
        a != b ==> (split::in_order(common + seq![a] + x, common + seq![b] + y) <==> a < b),
        split::in_order(common, common + x),
        x.len() > 0 ==> !split::in_order(common + x, common),
    decreases common.len(),
{
    if common.len() > 0 {
        the_first_difference_decides(common.skip(1), a, b, x, y);
        assert((common + seq![a] + x).skip(1) =~= common.skip(1) + seq![a] + x);
        assert((common + seq![b] + y).skip(1) =~= common.skip(1) + seq![b] + y);
        assert((common + x).skip(1) =~= common.skip(1) + x);
    } else {
        assert((common + seq![a] + x)[0] == a);
        assert((common + seq![b] + y)[0] == b);
        assert(common + x =~= x);
    }
}

/// A little-endian number is the sum of its bytes, each worth 256 times the one
/// before it.
pub proof fn bytes_add_up(b: Seq<u8>, at: int)
    requires
        0 <= at,
        at + 8 <= b.len(),
    ensures
        bytes::u16_at(b, at) == b[at] + 0x100 * b[at + 1],
        bytes::u32_at(b, at) == b[at] + 0x100 * b[at + 1] + 0x1_0000 * b[at + 2] + 0x100_0000 * b[at
            + 3],
        bytes::u64_at(b, at) == b[at] + 0x100 * b[at + 1] + 0x1_0000 * b[at + 2] + 0x100_0000 * b[at
            + 3] + 0x1_0000_0000 * b[at + 4] + 0x100_0000_0000 * b[at + 5] + 0x1_0000_0000_0000 * b[at
            + 6] + 0x100_0000_0000_0000 * b[at + 7],
        b[at + 7] < 128 ==> bytes::i64_at(b, at) == bytes::u64_at(b, at),
        b[at + 7] >= 128 ==> bytes::i64_at(b, at) == bytes::u64_at(b, at)
            - 0x1_0000_0000_0000_0000,
        b[at + 3] < 128 ==> bytes::i32_at(b, at) == bytes::u32_at(b, at),
        b[at + 3] >= 128 ==> bytes::i32_at(b, at) == bytes::u32_at(b, at) - 0x1_0000_0000,
{
    bytes::lemma_pow256_values();
    lemma_value_from(b, at, 2);
    lemma_value_from(b, at, 4);
    lemma_value_from(b, at, 8);
    reveal_with_fuel(value_from, 9);
    assert(value_from(b, at, 2) == b[at] + 0x100 * b[at + 1]);
    assert(value_from(b, at, 4) == b[at] + 0x100 * b[at + 1] + 0x1_0000 * b[at + 2] + 0x100_0000
        * b[at + 3]);
}

proof fn lemma_value_from(b: Seq<u8>, at: int, n: int)
    requires
        0 <= at,
        0 <= n,
        at + n <= b.len(),
    ensures
        bytes::le_value(bytes::part(b, at, n)) == value_from(b, at, n),
    decreases n,
{
    if n > 0 {
        lemma_value_from(b, at + 1, n - 1);
        assert(bytes::part(b, at, n).skip(1) =~= bytes::part(b, at + 1, n - 1));
    }
}

spec fn value_from(b: Seq<u8>, at: int, n: int) -> nat
    decreases n,
{
    if n <= 0 {
        0
    } else {
        b[at] as nat + 256 * value_from(b, at + 1, n - 1)
    }
}

} // verus!
