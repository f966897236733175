//! Instructions of the System program and of the compute budget program.

use vstd::prelude::*;

use solana_compute_budget_interface::ComputeBudgetInstruction;
use solana_program::pubkey::Pubkey;
use solana_system_interface::instruction as system_instruction;

use crate::bytes;
use crate::program::address;
use crate::program::types;
use crate::program::types::{Account, AccountMeta, Instruction, Step};

verus! {

/// Id of the compute budget program,
/// `ComputeBudget111111111111111111111111111111` in base 58.
pub const COMPUTE_BUDGET_PROGRAM_ID: [u8; 32] = [
    0x03, 0x06, 0x46, 0x6f, 0xe5, 0x21, 0x17, 0x32, 0xff, 0xec, 0xad, 0xba, 0x72, 0xc3, 0x9b, 0xe7,
    0xbc, 0x8c, 0xe5, 0xbb, 0xc5, 0xf7, 0x12, 0x6b, 0x2c, 0x43, 0x9b, 0x3a, 0x40, 0x00, 0x00, 0x00,
];

/// `CreateAccount`: `from` pays `lamports` for a new account `to` with `space`
/// bytes of data, owned by `owner`. Both sign.
pub open spec fn create_account_view(
    from: Seq<u8>,
    to: Seq<u8>,
    lamports: nat,
    space: nat,
    owner: Seq<u8>,
) -> types::InstructionView {
    types::InstructionView {
        program_id: address::SYSTEM_PROGRAM_ID@,
        accounts: seq![types::writable(from, true), types::writable(to, true)],
        data: bytes::le_bytes(0, 4) + bytes::le_bytes(lamports, 8) + bytes::le_bytes(space, 8)
            + owner,
    }
}

/// `Assign`: hands `account`, which signs, over to the program `owner`.
pub open spec fn assign_view(account: Seq<u8>, owner: Seq<u8>) -> types::InstructionView {
    types::InstructionView {
        program_id: address::SYSTEM_PROGRAM_ID@,
        accounts: seq![types::writable(account, true)],
        data: bytes::le_bytes(1, 4) + owner,
    }
}

/// `SetComputeUnitLimit`: caps the compute units of a transaction.
pub open spec fn compute_unit_limit_view(units: nat) -> types::InstructionView {
    types::InstructionView {
        program_id: COMPUTE_BUDGET_PROGRAM_ID@,
        accounts: seq![],
        data: seq![2u8] + bytes::le_bytes(units, 4),
    }
}

/// Calls `solana_system_interface::instruction::create_account`, which names
/// the two accounts as writable signers and serializes variant 0 of the
/// System instruction: a `u32` tag, the two `u64` fields and the owner key.
#[verifier::external_body]
pub(crate) fn create_account(
    from: &[u8; 32],
    to: &[u8; 32],
    lamports: u64,
    space: u64,
    owner: &[u8; 32],
) -> (r: Instruction)
    ensures
        r@ == create_account_view(from@, to@, lamports as nat, space as nat, owner@),
{
    let (from, to) = (Pubkey::new_from_array(*from), Pubkey::new_from_array(*to));
    let owner = Pubkey::new_from_array(*owner);
    let made = system_instruction::create_account(&from, &to, lamports, space, &owner);
    Instruction {
        program_id: made.program_id.to_bytes(),
        accounts: made.accounts.iter().map(
            |m| AccountMeta {
                pubkey: m.pubkey.to_bytes(),
                is_signer: m.is_signer,
                is_writable: m.is_writable,
            },
        ).collect(),
        data: made.data,
    }
}

/// Calls `solana_system_interface::instruction::assign`, which names the
/// account as a writable signer and serializes variant 1 of the System
/// instruction: a `u32` tag and the owner key.
#[verifier::external_body]
pub(crate) fn assign(account: &[u8; 32], owner: &[u8; 32]) -> (r: Instruction)
    ensures
        r@ == assign_view(account@, owner@),
{
    let account = Pubkey::new_from_array(*account);
    let made = system_instruction::assign(&account, &Pubkey::new_from_array(*owner));
    Instruction {
        program_id: made.program_id.to_bytes(),
        accounts: made.accounts.iter().map(
            |m| AccountMeta {
                pubkey: m.pubkey.to_bytes(),
                is_signer: m.is_signer,
                is_writable: m.is_writable,
            },
        ).collect(),
        data: made.data,
    }
}

/// Calls `ComputeBudgetInstruction::set_compute_unit_limit`, which writes the
/// tag 2 and the limit as a little-endian `u32`, and names no account.
#[verifier::external_body]
pub(crate) fn set_compute_unit_limit(units: u32) -> (r: Instruction)
    ensures
        r@ == compute_unit_limit_view(units as nat),
{
    let made = ComputeBudgetInstruction::set_compute_unit_limit(units);
    Instruction {
        program_id: made.program_id.to_bytes(),
        accounts: made.accounts.iter().map(
            |m| AccountMeta {
                pubkey: m.pubkey.to_bytes(),
                is_signer: m.is_signer,
                is_writable: m.is_writable,
            },
        ).collect(),
        data: made.data,
    }
}

/// The System call that carries out a `CreateAccount` step with `lamports` on
/// the new account. `None` for any other step, and for one that names an
/// account that was not passed.
pub fn create_account_call(step: &Step, accounts: &[Account], lamports: u64) -> (r: Option<
    Instruction,
>)
    ensures
        match step@ {
            types::StepView::CreateAccount { payer, account, space, owner, .. } => {
                if payer < accounts@.len() && account < accounts@.len() {
                    r matches Some(call) && call@ == create_account_view(
                        accounts@[payer].key@,
                        accounts@[account].key@,
                        lamports as nat,
                        space as nat,
                        owner,
                    )
                } else {
                    r is None
                }
            },
            _ => r is None,
        },
{
    match step {
        Step::CreateAccount { payer, account, space, owner, .. } => {
            if *payer < accounts.len() && *account < accounts.len() {
                Some(
                    create_account(
                        &accounts[*payer].key,
                        &accounts[*account].key,
                        lamports,
                        *space,
                        owner,
                    ),
                )
            } else {
                None
            }
        },
        _ => None,
    }
}

} // verus!
