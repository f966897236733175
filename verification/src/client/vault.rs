//! The commands for vault token accounts.

use vstd::prelude::*;
use vstd::string::StringExecFns;

use crate::bytes;
use crate::client::common;
use crate::program::address;
use crate::program::dispatch;
use crate::program::types;
use crate::program::types::{AccountMeta, Instruction};
use crate::text;

verus! {

/// `CreateVault` for the derived addresses `vault` and `vault_auth`.
pub open spec fn create_vault_view(
    program: Seq<u8>,
    payer: Seq<u8>,
    market: Seq<u8>,
    mint: Seq<u8>,
    vault: Seq<u8>,
    vault_auth: Seq<u8>,
) -> types::InstructionView {
    types::InstructionView {
        program_id: program,
        accounts: seq![
            types::writable(payer, true),
            types::readonly(market, false),
            types::readonly(mint, false),
            types::writable(vault, false),
            types::readonly(vault_auth, false),
            types::readonly(address::SYSTEM_PROGRAM_ID@, false),
            types::readonly(address::SPL_TOKEN_PROGRAM_ID@, false),
        ],
        data: seq![dispatch::TAG_CREATE_VAULT],
    }
}

/// The instruction that creates the vault of a market for one mint.
pub fn create_vault_instruction(
    program: &[u8; 32],
    payer: &[u8; 32],
    market: &[u8; 32],
    mint: &[u8; 32],
    vault: &[u8; 32],
    vault_auth: &[u8; 32],
) -> (r: Instruction)
    ensures
        r@ == create_vault_view(program@, payer@, market@, mint@, vault@, vault_auth@),
{
    let accounts: Vec<AccountMeta> = vec![
        AccountMeta::new(*payer, true),
        AccountMeta::new_readonly(*market, false),
        AccountMeta::new_readonly(*mint, false),
        AccountMeta::new(*vault, false),
        AccountMeta::new_readonly(*vault_auth, false),
        AccountMeta::new_readonly(address::SYSTEM_PROGRAM_ID, false),
        AccountMeta::new_readonly(address::SPL_TOKEN_PROGRAM_ID, false),
    ];
    let data: Vec<u8> = vec![dispatch::TAG_CREATE_VAULT];
    let r: Instruction = common::instruction(program, accounts, data);
    assert(r@ =~= create_vault_view(program@, payer@, market@, mint@, vault@, vault_auth@));
    r
}

/// `Deposit` of `amount` tokens.
pub open spec fn deposit_view(
    program: Seq<u8>,
    user: Seq<u8>,
    user_token: Seq<u8>,
    vault: Seq<u8>,
    amount: nat,
) -> types::InstructionView {
    types::InstructionView {
        program_id: program,
        accounts: seq![
            types::readonly(user, true),
            types::writable(user_token, false),
            types::writable(vault, false),
            types::readonly(address::SPL_TOKEN_PROGRAM_ID@, false),
        ],
        data: seq![dispatch::TAG_DEPOSIT] + bytes::le_bytes(amount, 8),
    }
}

/// The instruction that deposits tokens into a vault.
pub fn deposit_instruction(
    program: &[u8; 32],
    user: &[u8; 32],
    user_token: &[u8; 32],
    vault: &[u8; 32],
    amount: u64,
) -> (r: Instruction)
    ensures
        r@ == deposit_view(program@, user@, user_token@, vault@, amount as nat),
{
    let accounts: Vec<AccountMeta> = vec![
        AccountMeta::new_readonly(*user, true),
        AccountMeta::new(*user_token, false),
        AccountMeta::new(*vault, false),
        AccountMeta::new_readonly(address::SPL_TOKEN_PROGRAM_ID, false),
    ];
    let mut data: Vec<u8> = vec![dispatch::TAG_DEPOSIT];
    bytes::push_u64(&mut data, amount);
    let r: Instruction = common::instruction(program, accounts, data);
    assert(r@ =~= deposit_view(program@, user@, user_token@, vault@, amount as nat));
    r
}

/// The address of the vault of a market for one mint, and its bump.
pub fn vault_address(program: &[u8; 32], market: &[u8; 32], mint: &[u8; 32]) -> (r: Option<
    ([u8; 32], u8),
>)
    ensures
        address::derived(r) == address::program_address(
            seq![address::VAULT_SEED@, market@, mint@],
            program@,
        ),
{
    address::derive_with_keys(&address::VAULT_SEED, market, mint, program)
}

/// The address of the token authority of a market's vaults, and its bump.
pub fn vault_auth_address(program: &[u8; 32], market: &[u8; 32]) -> (r: Option<([u8; 32], u8)>)
    ensures
        address::derived(r) == address::program_address(
            seq![address::VAULT_AUTH_SEED@, market@],
            program@,
        ),
{
    address::derive_with_key(&address::VAULT_AUTH_SEED, market, program)
}

/// What `create-vault` prints before it sends anything.
pub open spec fn create_vault_header_text(
    rpc: Seq<char>,
    payer: Seq<u8>,
    program: Seq<u8>,
    market: Seq<u8>,
    mint: Seq<u8>,
    vault: Seq<u8>,
    vault_bump: nat,
    vault_auth: Seq<u8>,
    auth_bump: nat,
) -> Seq<char> {
    "rpc:              "@ + rpc + "\npayer:            "@ + address::key_text(payer)
        + "\nprogram:          "@ + address::key_text(program) + "\nmarket:           "@
        + address::key_text(market) + "\nmint:             "@ + address::key_text(mint)
        + "\nvault PDA:        "@ + address::key_text(vault) + "  (bump "@
        + text::decimal(vault_bump) + ")\nvault_auth PDA:   "@ + address::key_text(vault_auth)
        + "  (bump "@ + text::decimal(auth_bump) + ")\n\n"@
}

/// What `create-vault` prints before it sends anything.
pub fn create_vault_header(
    rpc: &str,
    payer: &[u8; 32],
    program: &[u8; 32],
    market: &[u8; 32],
    mint: &[u8; 32],
    vault: &[u8; 32],
    vault_bump: u8,
    vault_auth: &[u8; 32],
    auth_bump: u8,
) -> (r: String)
    ensures
        r@ == create_vault_header_text(
            rpc@,
            payer@,
            program@,
            market@,
            mint@,
            vault@,
            vault_bump as nat,
            vault_auth@,
            auth_bump as nat,
        ),
{
    let mut r: String = "rpc:              ".to_owned();
    r.append(rpc);
    r.append("\npayer:            ");
    r.append(address::show_key(payer).as_str());
    r.append("\nprogram:          ");
    r.append(address::show_key(program).as_str());
    r.append("\nmarket:           ");
    r.append(address::show_key(market).as_str());
    r.append("\nmint:             ");
    r.append(address::show_key(mint).as_str());
    r.append("\nvault PDA:        ");
    r.append(address::show_key(vault).as_str());
    r.append("  (bump ");
    r.append(text::decimal_text(vault_bump as u128).as_str());
    r.append(")\nvault_auth PDA:   ");
    r.append(address::show_key(vault_auth).as_str());
    r.append("  (bump ");
    r.append(text::decimal_text(auth_bump as u128).as_str());
    r.append(")\n\n");
    r
}

/// A vault token account, as it stands.
pub open spec fn describe_token_account_text(
    owner: Seq<u8>,
    lamports: nat,
    data_len: nat,
) -> Seq<char> {
    "\nvault token account post-state:\n  owner:        "@ + address::key_text(owner)
        + "  (expected SPL Token)\n  lamports:     "@ + text::decimal(lamports)
        + "\n  data length:  "@ + text::decimal(data_len) + "  (expected 165)\n"@
}

/// A vault token account, as it stands.
pub fn describe_token_account(owner: &[u8; 32], lamports: u64, data_len: usize) -> (r: String)
    ensures
        r@ == describe_token_account_text(owner@, lamports as nat, data_len as nat),
{
    let mut r: String = "\nvault token account post-state:\n  owner:        ".to_owned();
    r.append(address::show_key(owner).as_str());
    r.append("  (expected SPL Token)\n  lamports:     ");
    r.append(text::decimal_text(lamports as u128).as_str());
    r.append("\n  data length:  ");
    r.append(text::decimal_text(data_len as u128).as_str());
    r.append("  (expected 165)\n");
    r
}

/// What `deposit` prints before it sends anything.
pub open spec fn deposit_header_text(
    rpc: Seq<char>,
    user: Seq<u8>,
    program: Seq<u8>,
    user_token: Seq<u8>,
    vault: Seq<u8>,
    amount: nat,
) -> Seq<char> {
    "rpc:                 "@ + rpc + "\nuser:                "@ + address::key_text(user)
        + "\nprogram:             "@ + address::key_text(program) + "\nuser_token_account:  "@
        + address::key_text(user_token) + "\nvault:               "@ + address::key_text(vault)
        + "\namount:              "@ + text::decimal(amount) + "\n\n"@
}

/// What `deposit` prints before it sends anything.
pub fn deposit_header(
    rpc: &str,
    user: &[u8; 32],
    program: &[u8; 32],
    user_token: &[u8; 32],
    vault: &[u8; 32],
    amount: u64,
) -> (r: String)
    ensures
        r@ == deposit_header_text(rpc@, user@, program@, user_token@, vault@, amount as nat),
{
    let mut r: String = "rpc:                 ".to_owned();
    r.append(rpc);
    r.append("\nuser:                ");
    r.append(address::show_key(user).as_str());
    r.append("\nprogram:             ");
    r.append(address::show_key(program).as_str());
    r.append("\nuser_token_account:  ");
    r.append(address::show_key(user_token).as_str());
    r.append("\nvault:               ");
    r.append(address::show_key(vault).as_str());
    r.append("\namount:              ");
    r.append(text::decimal_text(amount as u128).as_str());
    r.append("\n\n");
    r
}

} // verus!
