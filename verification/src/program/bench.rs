//! `Bench`: a workload of known size for measuring compute units.

use vstd::prelude::*;
use vstd::string::StringExecFns;

use solana_program::hash::hash;

use crate::bytes;
use crate::program::log;
use crate::program::types;
use crate::program::types::{ProgramError, Refusal, Step};

verus! {

/// Length of the payload: rounds as `u32`, then heap bytes as `u32`.
pub const BENCH_PAYLOAD_LEN: usize = 8;

/// The SHA-256 digest of `data`.
pub uninterp spec fn sha256(data: Seq<u8>) -> Seq<u8>;

/// Calls `solana_program::hash::hash`, which returns the SHA-256 digest of
/// its argument.
#[verifier::external_body]
fn digest_of(data: &Vec<u8>) -> (r: [u8; 32])
    ensures
        r@ == sha256(data@),
{
    hash(data).to_bytes()
}

/// One round: the digest replaces the front of the buffer, as far as both
/// reach, and the round number is mixed into the first byte.
pub open spec fn stirred(buffer: Seq<u8>, digest: Seq<u8>, round: nat) -> Seq<u8> {
    let n = if digest.len() < buffer.len() {
        digest.len() as int
    } else {
        buffer.len() as int
    };
    let filled = digest.take(n) + buffer.skip(n);
    if filled.len() == 0 {
        filled
    } else {
        filled.update(0, filled[0] ^ ((round % 256) as u8))
    }
}

/// The buffer after `rounds` rounds, if it was `before`.
pub open spec fn bench_buffer(before: Seq<u8>, rounds: nat) -> Seq<u8>
    decreases rounds,
{
    if rounds == 0 {
        before
    } else {
        let last = bench_buffer(before, (rounds - 1) as nat);
        stirred(last, sha256(last), (rounds - 1) as nat)
    }
}

/// Feeds a digest back into the buffer.
pub fn stir(buffer: &mut Vec<u8>, digest: &[u8; 32], round: u32)
    ensures
        final(buffer)@ == stirred(old(buffer)@, digest@, round as nat),
{
    let n: usize = if buffer.len() < 32 {
        buffer.len()
    } else {
        32
    };
    let mut i: usize = 0;
    while i < n
        invariant
            n == (if old(buffer)@.len() < 32 {
                old(buffer)@.len()
            } else {
                32
            }),
            i <= n,
            buffer@.len() == old(buffer)@.len(),
            forall|j: int| 0 <= j < i ==> buffer@[j] == digest@[j],
            forall|j: int| i <= j < buffer@.len() ==> buffer@[j] == old(buffer)@[j],
        decreases n - i,
    {
        buffer[i] = digest[i];
        i += 1;
    }
    assert(buffer@ =~= digest@.take(n as int) + old(buffer)@.skip(n as int));
    if buffer.len() > 0 {
        let first: u8 = buffer[0];
        buffer[0] = first ^ ((round % 256) as u8);
    }
}

/// The buffer that the rounds start from.
pub fn bench_alloc(heap_bytes: u32) -> (r: Vec<u8>)
    ensures
        r@ == types::zeros(heap_bytes as nat),
{
    let r: Vec<u8> = vec![0u8; heap_bytes as usize];
    assert(r@ =~= types::zeros(heap_bytes as nat));
    r
}

/// Runs all rounds.
pub fn bench_rounds(buffer: &mut Vec<u8>, rounds: u32)
    ensures
        final(buffer)@ == bench_buffer(old(buffer)@, rounds as nat),
{
    let mut i: u32 = 0;
    while i < rounds
        invariant
            i <= rounds,
            buffer@ == bench_buffer(old(buffer)@, i as nat),
        decreases rounds - i,
    {
        let digest: [u8; 32] = digest_of(buffer);
        stir(buffer, &digest, i);
        i += 1;
    }
}

/// What `Bench` answers.
pub open spec fn bench_outcome(payload: Seq<u8>) -> types::Outcome {
    if payload.len() != BENCH_PAYLOAD_LEN {
        Err(
            types::refusal(
                ProgramError::InvalidInstructionData,
                log::numbers_line(
                    "bench: payload must be "@,
                    BENCH_PAYLOAD_LEN as nat,
                    " bytes, got "@,
                    payload.len(),
                ),
            ),
        )
    } else {
        Ok(bench_steps(bytes::u32_at(payload, 0), bytes::u32_at(payload, 4)))
    }
}

/// The steps of `Bench`: the work of `bench_alloc` and `bench_rounds`, with the
/// compute units logged before, between and after.
pub open spec fn bench_steps(rounds: nat, heap_bytes: nat) -> Seq<types::StepView> {
    seq![
        types::StepView::Log {
            line: log::numbers_line(
                "bench: start (rounds="@,
                rounds,
                ", heap_bytes="@,
                heap_bytes,
            ) + ")"@,
        },
        types::StepView::LogComputeUnits,
        types::StepView::BenchAlloc { heap_bytes: heap_bytes as int },
        types::StepView::Log {
            line: log::number_line("bench: after heap alloc ("@, heap_bytes) + " bytes)"@,
        },
        types::StepView::LogComputeUnits,
        types::StepView::BenchRounds { rounds: rounds as int },
        types::StepView::Log {
            line: log::number_line("bench: after "@, rounds) + " hash rounds"@,
        },
        types::StepView::LogComputeUnits,
    ]
}

/// `Bench`: a workload that touches no account.
pub fn process_bench(payload: &[u8]) -> (r: Result<Vec<Step>, Refusal>)
    ensures
        types::outcome(r) == bench_outcome(payload@),
{
    if payload.len() != BENCH_PAYLOAD_LEN {
        let line: String = log::with_numbers(
            "bench: payload must be ",
            BENCH_PAYLOAD_LEN as u64,
            " bytes, got ",
            payload.len() as u64,
        );
        return Err(Refusal::logged(ProgramError::InvalidInstructionData, line));
    }
    let rounds: u32 = bytes::read_u32(payload, 0);
    let heap_bytes: u32 = bytes::read_u32(payload, 4);
    let mut start: String = log::with_numbers(
        "bench: start (rounds=",
        rounds as u64,
        ", heap_bytes=",
        heap_bytes as u64,
    );
    start.append(")");
    let mut allocated: String = log::with_number("bench: after heap alloc (", heap_bytes as u64);
    allocated.append(" bytes)");
    let mut hashed: String = log::with_number("bench: after ", rounds as u64);
    hashed.append(" hash rounds");
    let steps: Vec<Step> = vec![
        Step::Log { line: start },
        Step::LogComputeUnits,
        Step::BenchAlloc { heap_bytes },
        Step::Log { line: allocated },
        Step::LogComputeUnits,
        Step::BenchRounds { rounds },
        Step::Log { line: hashed },
        Step::LogComputeUnits,
    ];
    assert(types::outcome(Ok(steps))->Ok_0 =~= bench_outcome(payload@)->Ok_0);
    Ok(steps)
}

} // verus!
