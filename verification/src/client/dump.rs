//! What a dump in hexadecimal shows: every byte can be read back from it.

use vstd::prelude::*;

use crate::client::market;
use crate::reading;

verus! {

/// What a hexadecimal digit stands for.
pub open spec fn digit_value(c: char) -> int {
    if '0' <= c && c <= '9' {
        c as int - 48
    } else {
        c as int - 87
    }
}

/// A hexadecimal digit is a decimal digit or a letter from `a` to `f`, and reads
/// back as the number that it was written for.
pub proof fn digits_read_back(d: nat)
    requires
        d < 16,
    ensures
        ({
            let c = market::hex_digit(d);
            ('0' <= c && c <= '9') || ('a' <= c && c <= 'f')
        }),
        digit_value(market::hex_digit(d)) == d,
{
}

/// A byte is written with two digits, the upper one first.
pub proof fn hex_bytes_read_back(b: u8)
    ensures
        market::hex_byte(b).len() == 2,
        16 * digit_value(market::hex_byte(b)[0]) + digit_value(market::hex_byte(b)[1]) == b,
{
    digits_read_back((b / 16) as nat);
    digits_read_back((b % 16) as nat);
}

/// Every byte has three characters, in order: its two digits and a space.
pub proof fn every_byte_is_written(s: Seq<u8>)
    ensures
        market::hex_bytes(s).len() == 3 * s.len(),
        forall|i: int|
            #![trigger s[i]]
            0 <= i < s.len() ==> {
                &&& 16 * digit_value(market::hex_bytes(s)[3 * i]) + digit_value(
                    market::hex_bytes(s)[3 * i + 1],
                ) == s[i]
                &&& market::hex_bytes(s)[3 * i + 2] == ' '
            },
    decreases s.len(),
{
    reveal_strlit(" ");
    if s.len() > 0 {
        let front = s.drop_last();
        every_byte_is_written(front);
        hex_bytes_read_back(s.last());
        assert forall|i: int| #![trigger s[i]] 0 <= i < s.len() implies {
            &&& 16 * digit_value(market::hex_bytes(s)[3 * i]) + digit_value(
                market::hex_bytes(s)[3 * i + 1],
            ) == s[i]
            &&& market::hex_bytes(s)[3 * i + 2] == ' '
        } by {
            if i < front.len() {
                assert(front[i] == s[i]);
                assert(market::hex_bytes(s)[3 * i] == market::hex_bytes(front)[3 * i]);
                assert(market::hex_bytes(s)[3 * i + 1] == market::hex_bytes(front)[3 * i + 1]);
                assert(market::hex_bytes(s)[3 * i + 2] == market::hex_bytes(front)[3 * i + 2]);
            }
        }
    }
}

/// The line of a dump that starts at byte `16 * k`.
pub open spec fn line_at(s: Seq<u8>, k: int) -> Seq<char> {
    "          "@ + market::hex_bytes(
        s.subrange(
            16 * k,
            if 16 * k + 16 < s.len() {
                16 * k + 16
            } else {
                s.len() as int
            },
        ),
    ) + "\n"@
}

proof fn lemma_first_piece(first: Seq<char>, rest: Seq<Seq<char>>, n: nat)
    requires
        n <= rest.len(),
    ensures
        reading::joined(seq![first] + rest, n + 1) == first + reading::joined(rest, n),
    decreases n,
{
    let all = seq![first] + rest;
    if n == 0 {
        reveal_with_fuel(reading::joined, 2);
        assert(reading::joined(all, 1) =~= first + reading::joined(rest, 0));
    } else {
        lemma_first_piece(first, rest, (n - 1) as nat);
        assert(all[n as int] == rest[n - 1]);
        assert(reading::joined(all, n + 1) =~= first + reading::joined(rest, n));
    }
}

/// A dump has sixteen bytes in a line, in order, and fewer only in the last one.
pub proof fn lines_hold_sixteen_bytes(s: Seq<u8>)
    ensures
        market::hex_lines(s) == reading::joined(
            Seq::new(((s.len() + 15) / 16) as nat, |k: int| line_at(s, k)),
            ((s.len() + 15) / 16) as nat,
        ),
    decreases s.len(),
{
    let count = ((s.len() + 15) / 16) as nat;
    let lines = Seq::new(count, |k: int| line_at(s, k));
    if s.len() > 0 {
        let n: int = if s.len() < 16 {
            s.len() as int
        } else {
            16
        };
        let rest = s.skip(n);
        lines_hold_sixteen_bytes(rest);
        let others = Seq::new(((rest.len() + 15) / 16) as nat, |k: int| line_at(rest, k));
        assert(others.len() + 1 == count);
        assert forall|k: int| 0 <= k < others.len() implies others[k] == #[trigger] lines[k + 1] by {
            let end = if 16 * k + 16 < rest.len() {
                16 * k + 16
            } else {
                rest.len() as int
            };
            assert(rest.subrange(16 * k, end) =~= s.subrange(16 * (k + 1), end + 16));
        }
        assert(s.take(n) =~= s.subrange(0, n));
        let together = seq![line_at(s, 0)] + others;
        assert forall|k: int| 0 <= k < count implies lines[k] == #[trigger] together[k] by {
            if k > 0 {
                assert(others[k - 1] == lines[k - 1 + 1]);
                assert(together[k] == others[k - 1]);
            }
        }
        assert(lines =~= together);
        lemma_first_piece(line_at(s, 0), others, others.len());
    }
}

/// A field of a dump starts with its offset, in four digits, and its label; then
/// come the bytes of the data from that offset on, as many as the field has.
pub proof fn fields_are_dumped_from_their_offset(data: Seq<u8>, at: int, len: int, label: Seq<char>)
    requires
        0 <= at < 65536,
        0 <= len,
        at + len <= data.len(),
    ensures
        ({
            let page = market::region_text(data, at, len, label);
            &&& page.subrange(0, 4) == "  0x"@
            &&& 4096 * digit_value(page[4]) + 256 * digit_value(page[5]) + 16 * digit_value(page[6])
                + digit_value(page[7]) == at
            &&& page.skip(8) == "  "@ + label + "\n"@ + market::hex_lines(
                data.subrange(at, at + len),
            )
        }),
{
    reveal_strlit("  0x");
    let upper = (at / 256) as u8;
    let lower = (at % 256) as u8;
    hex_bytes_read_back(upper);
    hex_bytes_read_back(lower);
    let page = market::region_text(data, at, len, label);
    assert(at == 256 * upper + lower);
    assert(page.subrange(0, 4) =~= "  0x"@);
    assert(page[4] == market::hex_byte(upper)[0]);
    assert(page[5] == market::hex_byte(upper)[1]);
    assert(page[6] == market::hex_byte(lower)[0]);
    assert(page[7] == market::hex_byte(lower)[1]);
    assert(page.skip(8) =~= "  "@ + label + "\n"@ + market::hex_lines(data.subrange(at, at + len)));
}

/// A market is dumped field by field: each has its own offset, length and label,
/// and together they cover the account from its first byte to its last.
pub proof fn every_field_is_dumped(data: Seq<u8>, derived: bool)
    ensures
        market::dump_text(data, derived) == reading::joined(
            seq![
                market::region_text(data, 0, 8, "discriminator      [u8; 8]    expected: MARKET\\0\\0"@),
                market::region_text(data, 8, 1, "version            u8"@),
                market::region_text(
                    data,
                    9,
                    1,
                    if derived {
                        "bump               u8         expected: PDA bump"@
                    } else {
                        "bump               u8"@
                    },
                ),
                market::region_text(data, 10, 6, "_pad0              [u8; 6]"@),
                market::region_text(data, 16, 32, "authority          [u8; 32]"@),
                market::region_text(data, 48, 32, "base_mint          [u8; 32]"@),
                market::region_text(data, 80, 32, "quote_mint         [u8; 32]"@),
                market::region_text(data, 112, 8, "tick_size          u64"@),
                market::region_text(data, 120, 8, "lot_size           u64"@),
                market::region_text(data, 128, 128, "_reserved          [u8; 128]"@),
            ],
            10,
        ),
{
    reveal_with_fuel(reading::joined, 11);
    let first = market::region_text(
        data,
        0,
        8,
        "discriminator      [u8; 8]    expected: MARKET\\0\\0"@,
    );
    assert(seq![] + first =~= first);
}

} // verus!
