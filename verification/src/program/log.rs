//! The lines that the program logs.

use vstd::prelude::*;
use vstd::string::StringExecFns;

use crate::program::address;
use crate::text;

verus! {

/// A text and a number.
pub open spec fn number_line(head: Seq<char>, n: nat) -> Seq<char> {
    head + text::decimal(n)
}

/// Two numbers, each behind a text.
pub open spec fn numbers_line(head: Seq<char>, first: nat, middle: Seq<char>, second: nat) -> Seq<char> {
    head + text::decimal(first) + middle + text::decimal(second)
}

/// Two keys in base 58, each behind a text.
pub open spec fn keys_line(head: Seq<char>, first: Seq<u8>, middle: Seq<char>, second: Seq<u8>) -> Seq<
    char,
> {
    head + address::key_text(first) + middle + address::key_text(second)
}

/// Writes a text and a number.
pub fn with_number(head: &str, n: u64) -> (r: String)
    ensures
        r@ == number_line(head@, n as nat),
{
    let mut r: String = head.to_owned();
    r.append(text::decimal_text(n as u128).as_str());
    r
}

/// Writes two numbers, each behind a text.
pub fn with_numbers(head: &str, first: u64, middle: &str, second: u64) -> (r: String)
    ensures
        r@ == numbers_line(head@, first as nat, middle@, second as nat),
{
    let mut r: String = head.to_owned();
    r.append(text::decimal_text(first as u128).as_str());
    r.append(middle);
    r.append(text::decimal_text(second as u128).as_str());
    r
}

/// Writes two keys, each behind a text.
pub fn with_keys(head: &str, first: &[u8; 32], middle: &str, second: &[u8; 32]) -> (r: String)
    ensures
        r@ == keys_line(head@, first@, middle@, second@),
{
    let mut r: String = head.to_owned();
    r.append(address::show_key(first).as_str());
    r.append(middle);
    r.append(address::show_key(second).as_str());
    r
}

/// A line tells its numbers and its keys in the order in which they were given.
pub proof fn lines_tell_their_values(
    head: Seq<char>,
    m: nat,
    middle: Seq<char>,
    n: nat,
    first: Seq<u8>,
    second: Seq<u8>,
)
    ensures
        number_line(head, m) == head + text::decimal(m),
        numbers_line(head, m, middle, n) == head + text::decimal(m) + (middle + text::decimal(n)),
        keys_line(head, first, middle, second) == head + address::key_text(first) + (middle
            + address::key_text(second)),
{
    assert(numbers_line(head, m, middle, n) =~= head + text::decimal(m) + (middle + text::decimal(
        n,
    )));
    assert(keys_line(head, first, middle, second) =~= head + address::key_text(first) + (middle
        + address::key_text(second)));
}

} // verus!
