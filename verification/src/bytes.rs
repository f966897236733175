//! Little-endian integers and fixed-size arrays inside byte buffers.

use vstd::prelude::*;

verus! {

/// 256 to the power of `n`: how many values `n` bytes can tell apart.
pub open spec fn pow256(n: nat) -> nat
    decreases n,
{
    if n == 0 {
        1
    } else {
        256 * pow256((n - 1) as nat)
    }
}

/// The number that a little-endian byte sequence stands for.
pub open spec fn le_value(s: Seq<u8>) -> nat
    decreases s.len(),
{
    if s.len() == 0 {
        0
    } else {
        s[0] as nat + 256 * le_value(s.skip(1))
    }
}

/// The `width` little-endian bytes of `value`, low byte first.
pub open spec fn le_bytes(value: nat, width: nat) -> Seq<u8>
    decreases width,
{
    if width == 0 {
        seq![]
    } else {
        seq![(value % 256) as u8] + le_bytes(value / 256, (width - 1) as nat)
    }
}

/// `width` bytes hold exactly the numbers below `pow256(width)`.
pub proof fn lemma_le_value_bound(s: Seq<u8>)
    ensures
        le_value(s) < pow256(s.len()),
    decreases s.len(),
{
    if s.len() > 0 {
        lemma_le_value_bound(s.skip(1));
    }
}

/// Encoding yields `width` bytes, and decoding them gives the number back.
pub proof fn lemma_le_round_trip(value: nat, width: nat)
    requires
        value < pow256(width),
    ensures
        le_bytes(value, width).len() == width,
        le_value(le_bytes(value, width)) == value,
    decreases width,
{
    if width > 0 {
        lemma_le_round_trip(value / 256, (width - 1) as nat);
        let s = le_bytes(value, width);
        assert(s.skip(1) =~= le_bytes(value / 256, (width - 1) as nat));
    }
}

/// Decoding bytes and encoding the number again gives the same bytes.
pub proof fn lemma_le_bytes_of_value(s: Seq<u8>)
    ensures
        le_bytes(le_value(s), s.len()) == s,
    decreases s.len(),
{
    if s.len() > 0 {
        lemma_le_bytes_of_value(s.skip(1));
        assert(le_value(s) % 256 == s[0]);
        assert(le_value(s) / 256 == le_value(s.skip(1)));
        assert(s =~= seq![s[0]] + s.skip(1));
    }
}

/// Zero bytes stand for the number zero.
pub proof fn lemma_zero_value(s: Seq<u8>)
    requires
        forall|i: int| 0 <= i < s.len() ==> s[i] == 0,
    ensures
        le_value(s) == 0,
    decreases s.len(),
{
    if s.len() > 0 {
        lemma_zero_value(s.skip(1));
    }
}

/// The powers that the integer widths of this crate need.
pub proof fn lemma_pow256_values()
    ensures
        pow256(1) == 0x100,
        pow256(2) == 0x1_0000,
        pow256(4) == 0x1_0000_0000,
        pow256(8) == 0x1_0000_0000_0000_0000,
{
    reveal_with_fuel(pow256, 9);
}

/// The number that a little-endian byte sequence stands for in two's
/// complement: the upper half of the unsigned range is negative.
pub open spec fn le_signed(s: Seq<u8>) -> int {
    if 2 * le_value(s) < pow256(s.len()) {
        le_value(s) as int
    } else {
        le_value(s) - pow256(s.len())
    }
}

/// The `len` bytes of `b` that start at offset `at`.
pub open spec fn part(b: Seq<u8>, at: int, len: int) -> Seq<u8> {
    b.subrange(at, at + len)
}

/// The `u16` stored at offset `at`.
pub open spec fn u16_at(b: Seq<u8>, at: int) -> nat {
    le_value(part(b, at, 2))
}

/// The `u32` stored at offset `at`.
pub open spec fn u32_at(b: Seq<u8>, at: int) -> nat {
    le_value(part(b, at, 4))
}

/// The `u64` stored at offset `at`.
pub open spec fn u64_at(b: Seq<u8>, at: int) -> nat {
    le_value(part(b, at, 8))
}

/// The `i32` stored at offset `at`.
pub open spec fn i32_at(b: Seq<u8>, at: int) -> int {
    le_signed(part(b, at, 4))
}

/// The `i64` stored at offset `at`.
pub open spec fn i64_at(b: Seq<u8>, at: int) -> int {
    le_signed(part(b, at, 8))
}

/// Two buffers that agree on their first `at` bytes and on the `len` bytes
/// after those agree on their first `at + len` bytes.
pub proof fn lemma_agree_bytes(a: Seq<u8>, b: Seq<u8>, at: int, len: int)
    requires
        0 <= at,
        0 <= len,
        at + len <= a.len(),
        at + len <= b.len(),
        part(a, 0, at) == part(b, 0, at),
        part(a, at, len) == part(b, at, len),
    ensures
        part(a, 0, at + len) == part(b, 0, at + len),
{
    assert(part(a, 0, at + len) =~= part(a, 0, at) + part(a, at, len));
    assert(part(b, 0, at + len) =~= part(b, 0, at) + part(b, at, len));
}

/// As `lemma_agree_bytes`, where the next `len` bytes are known to hold the
/// same unsigned number.
pub proof fn lemma_agree_value(a: Seq<u8>, b: Seq<u8>, at: int, len: int)
    requires
        0 <= at,
        0 <= len,
        at + len <= a.len(),
        at + len <= b.len(),
        part(a, 0, at) == part(b, 0, at),
        le_value(part(a, at, len)) == le_value(part(b, at, len)),
    ensures
        part(a, 0, at + len) == part(b, 0, at + len),
{
    lemma_le_bytes_of_value(part(a, at, len));
    lemma_le_bytes_of_value(part(b, at, len));
    lemma_agree_bytes(a, b, at, len);
}

/// As `lemma_agree_bytes`, where the next `len` bytes are known to hold the
/// same signed number.
pub proof fn lemma_agree_signed(a: Seq<u8>, b: Seq<u8>, at: int, len: int)
    requires
        0 <= at,
        0 <= len,
        at + len <= a.len(),
        at + len <= b.len(),
        part(a, 0, at) == part(b, 0, at),
        le_signed(part(a, at, len)) == le_signed(part(b, at, len)),
    ensures
        part(a, 0, at + len) == part(b, 0, at + len),
{
    lemma_le_value_bound(part(a, at, len));
    lemma_le_value_bound(part(b, at, len));
    lemma_agree_value(a, b, at, len);
}

/// Copies `N` bytes out of `b`, starting at offset `at`.
pub fn read_array<const N: usize>(b: &[u8], at: usize) -> (r: [u8; N])
    requires
        at + N <= b.len(),
    ensures
        r@ == part(b@, at as int, N as int),
{
    let mut r: [u8; N] = [0u8; N];
    let mut i: usize = 0;
    while i < N
        invariant
            i <= N,
            at + N <= b.len(),
            forall|j: int| 0 <= j < i ==> r@[j] == b@[at + j],
        decreases N - i,
    {
        r[i] = b[at + i];
        i += 1;
    }
    assert(r@ =~= part(b@, at as int, N as int));
    r
}

/// Reads `width` little-endian bytes of `b`, starting at offset `at`.
fn read_le(b: &[u8], at: usize, width: usize) -> (r: u64)
    requires
        width <= 8,
        at + width <= b.len(),
    ensures
        r == le_value(part(b@, at as int, width as int)),
{
    let mut r: u64 = 0;
    let mut i: usize = width;
    assert(part(b@, at + i, 0) =~= seq![]);
    while i > 0
        invariant
            i <= width <= 8,
            at + width <= b.len(),
            r == le_value(part(b@, at + i, width - i)),
        decreases i,
    {
        let ghost rest = part(b@, at + i, width - i);
        i -= 1;
        let ghost all = part(b@, at + i, width - i);
        proof {
            assert(all.skip(1) =~= rest);
            lemma_le_value_bound(all);
            lemma_pow256_monotonic(all.len(), 8);
            lemma_pow256_values();
        }
        r = b[at + i] as u64 + 256 * r;
    }
    r
}

proof fn lemma_pow256_monotonic(m: nat, n: nat)
    requires
        m <= n,
    ensures
        pow256(m) <= pow256(n),
        0 < pow256(m),
    decreases n,
{
    if m < n {
        lemma_pow256_monotonic(m, (n - 1) as nat);
    } else if m > 0 {
        lemma_pow256_monotonic((m - 1) as nat, (n - 1) as nat);
    }
}

/// Reads the `u16` at offset `at`.
pub fn read_u16(b: &[u8], at: usize) -> (r: u16)
    requires
        at + 2 <= b.len(),
    ensures
        r == u16_at(b@, at as int),
{
    let v: u64 = read_le(b, at, 2);
    proof {
        lemma_le_value_bound(part(b@, at as int, 2));
        lemma_pow256_values();
    }
    v as u16
}

/// Reads the `u32` at offset `at`.
pub fn read_u32(b: &[u8], at: usize) -> (r: u32)
    requires
        at + 4 <= b.len(),
    ensures
        r == u32_at(b@, at as int),
{
    let v: u64 = read_le(b, at, 4);
    proof {
        lemma_le_value_bound(part(b@, at as int, 4));
        lemma_pow256_values();
    }
    v as u32
}

/// Reads the `u64` at offset `at`.
pub fn read_u64(b: &[u8], at: usize) -> (r: u64)
    requires
        at + 8 <= b.len(),
    ensures
        r == u64_at(b@, at as int),
{
    read_le(b, at, 8)
}

/// Reads the `i32` at offset `at`.
pub fn read_i32(b: &[u8], at: usize) -> (r: i32)
    requires
        at + 4 <= b.len(),
    ensures
        r == i32_at(b@, at as int),
{
    let v: u32 = read_u32(b, at);
    proof {
        lemma_pow256_values();
    }
    if v < 0x8000_0000 {
        v as i32
    } else {
        -((u32::MAX - v) as i32) - 1
    }
}

/// Reads the `i64` at offset `at`.
pub fn read_i64(b: &[u8], at: usize) -> (r: i64)
    requires
        at + 8 <= b.len(),
    ensures
        r == i64_at(b@, at as int),
{
    let v: u64 = read_u64(b, at);
    proof {
        lemma_pow256_values();
    }
    if v < 0x8000_0000_0000_0000 {
        v as i64
    } else {
        -((u64::MAX - v) as i64) - 1
    }
}

/// Appends the bytes of `s` to `out`.
pub fn push_bytes(out: &mut Vec<u8>, s: &[u8])
    ensures
        final(out)@ == old(out)@ + s@,
{
    let mut i: usize = 0;
    while i < s.len()
        invariant
            i <= s.len(),
            out@ == old(out)@ + s@.take(i as int),
        decreases s.len() - i,
    {
        out.push(s[i]);
        i += 1;
        assert(s@.take(i as int) =~= s@.take(i - 1).push(s@[i - 1]));
    }
    assert(s@.take(i as int) =~= s@);
}

/// A copy of `s`.
pub fn copy_bytes(s: &[u8]) -> (r: Vec<u8>)
    ensures
        r@ == s@,
{
    let mut r: Vec<u8> = Vec::with_capacity(s.len());
    push_bytes(&mut r, s);
    assert(r@ =~= s@);
    r
}

/// Appends the `width` low little-endian bytes of `value` to `out`.
fn push_le(out: &mut Vec<u8>, value: u64, width: usize)
    ensures
        final(out)@ == old(out)@ + le_bytes(value as nat, width as nat),
{
    let mut rest: u64 = value;
    let mut i: usize = 0;
    while i < width
        invariant
            i <= width,
            out@ + le_bytes(rest as nat, (width - i) as nat) == old(out)@ + le_bytes(
                value as nat,
                width as nat,
            ),
        decreases width - i,
    {
        let ghost before = out@;
        out.push((rest % 256) as u8);
        i += 1;
        assert(out@ + le_bytes((rest / 256) as nat, (width - i) as nat) =~= before + le_bytes(
            rest as nat,
            (width - i + 1) as nat,
        ));
        rest = rest / 256;
    }
    assert(out@ + le_bytes(rest as nat, 0) =~= out@);
}

/// Appends a `u16`, two bytes.
pub fn push_u16(out: &mut Vec<u8>, value: u16)
    ensures
        final(out)@ == old(out)@ + le_bytes(value as nat, 2),
{
    push_le(out, value as u64, 2);
}

/// Appends a `u32`, four bytes.
pub fn push_u32(out: &mut Vec<u8>, value: u32)
    ensures
        final(out)@ == old(out)@ + le_bytes(value as nat, 4),
{
    push_le(out, value as u64, 4);
}

/// Appends a `u64`, eight bytes.
pub fn push_u64(out: &mut Vec<u8>, value: u64)
    ensures
        final(out)@ == old(out)@ + le_bytes(value as nat, 8),
{
    push_le(out, value, 8);
}

/// The number whose unsigned bytes are the two's complement of `value`.
pub open spec fn twos_complement(value: int, width: nat) -> nat {
    if value >= 0 {
        value as nat
    } else {
        (value + pow256(width)) as nat
    }
}

/// Appends an `i32` in two's complement, four bytes.
pub fn push_i32(out: &mut Vec<u8>, value: i32)
    ensures
        final(out)@ == old(out)@ + le_bytes(twos_complement(value as int, 4), 4),
{
    proof {
        lemma_pow256_values();
    }
    let v: u32 = if value >= 0 {
        value as u32
    } else {
        u32::MAX - (-(value + 1)) as u32
    };
    push_u32(out, v);
}

/// Appends an `i64` in two's complement, eight bytes.
pub fn push_i64(out: &mut Vec<u8>, value: i64)
    ensures
        final(out)@ == old(out)@ + le_bytes(twos_complement(value as int, 8), 8),
{
    proof {
        lemma_pow256_values();
    }
    let v: u64 = if value >= 0 {
        value as u64
    } else {
        u64::MAX - (-(value + 1)) as u64
    };
    push_u64(out, v);
}

/// The two's complement of a number in range decodes to that number.
pub proof fn lemma_twos_complement_decode(value: int, width: nat)
    requires
        -(pow256(width) as int) <= 2 * value < pow256(width),
    ensures
        twos_complement(value, width) < pow256(width),
        le_bytes(twos_complement(value, width), width).len() == width,
        le_signed(le_bytes(twos_complement(value, width), width)) == value,
{
    lemma_pow256_monotonic(0, width);
    lemma_le_round_trip(twos_complement(value, width), width);
}

/// The first `n` bytes, if there are as many.
pub fn prefix(b: &[u8], n: usize) -> (r: Option<&[u8]>)
    ensures
        match r {
            Some(p) => n <= b@.len() && p@ == b@.take(n as int),
            None => b@.len() < n,
        },
{
    if b.len() < n {
        return None;
    }
    let p: &[u8] = &b[0..n];
    assert(p@ =~= b@.take(n as int));
    Some(p)
}

/// Whether two buffers hold the same bytes.
pub fn same_bytes(a: &[u8], b: &[u8]) -> (r: bool)
    ensures
        r == (a@ == b@),
{
    if a.len() != b.len() {
        return false;
    }
    let mut i: usize = 0;
    while i < a.len()
        invariant
            i <= a.len(),
            a.len() == b.len(),
            forall|j: int| 0 <= j < i ==> a@[j] == b@[j],
        decreases a.len() - i,
    {
        if a[i] != b[i] {
            return false;
        }
        i += 1;
    }
    assert(a@ =~= b@);
    true
}

} // verus!
