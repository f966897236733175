//! `CreateVault` and `Deposit`: token accounts and transfers, by way of the
//! SPL Token program. Its two instructions are spelled out byte by byte.

use vstd::prelude::*;
use vstd::string::StringExecFns;

use crate::bytes;
use crate::program::address;
use crate::program::log;
use crate::program::types;
use crate::program::types::{Account, AccountMeta, Instruction, ProgramError, Refusal, Step};

verus! {

/// Size of an SPL token account.
pub const TOKEN_ACCOUNT_LEN: usize = 165;

/// Tag of the SPL Token instruction `Transfer`.
pub const SPL_TRANSFER: u8 = 3;

/// Tag of the SPL Token instruction `InitializeAccount3`.
pub const SPL_INITIALIZE_ACCOUNT_3: u8 = 18;

/// Length of the payload of `Deposit`: the amount as `u64`.
pub const DEPOSIT_PAYLOAD_LEN: usize = 8;

/// Seeds of a vault token account, without the bump.
pub open spec fn vault_seeds(market: Seq<u8>, mint: Seq<u8>) -> Seq<Seq<u8>> {
    seq![address::VAULT_SEED@, market, mint]
}

/// Seeds of the token authority of a market's vaults, without the bump.
pub open spec fn vault_auth_seeds(market: Seq<u8>) -> Seq<Seq<u8>> {
    seq![address::VAULT_AUTH_SEED@, market]
}

/// `InitializeAccount3`: makes a blank token account hold `mint` for `owner`.
pub open spec fn initialize_account_3(account: Seq<u8>, mint: Seq<u8>, owner: Seq<u8>) -> types::InstructionView {
    types::InstructionView {
        program_id: address::SPL_TOKEN_PROGRAM_ID@,
        accounts: seq![types::writable(account, false), types::readonly(mint, false)],
        data: seq![SPL_INITIALIZE_ACCOUNT_3] + owner,
    }
}

/// `Transfer`: moves `amount` tokens, signed for by `authority`.
pub open spec fn transfer(
    source: Seq<u8>,
    destination: Seq<u8>,
    authority: Seq<u8>,
    amount: nat,
) -> types::InstructionView {
    types::InstructionView {
        program_id: address::SPL_TOKEN_PROGRAM_ID@,
        accounts: seq![
            types::writable(source, false),
            types::writable(destination, false),
            types::readonly(authority, true),
        ],
        data: seq![SPL_TRANSFER] + bytes::le_bytes(amount, 8),
    }
}

/// What `CreateVault` refuses before it derives an address, if anything.
pub open spec fn create_vault_refusal(
    program_id: Seq<u8>,
    accounts: Seq<Account>,
    payload: Seq<u8>,
) -> Option<types::RefusalView> {
    if payload.len() != 0 {
        Some(
            types::refusal(
                ProgramError::InvalidInstructionData,
                "create_vault: payload must be empty"@,
            ),
        )
    } else if accounts.len() < 7 {
        Some(types::silent_refusal(ProgramError::NotEnoughAccountKeys))
    } else if !accounts[0].is_signer {
        Some(
            types::refusal(
                ProgramError::MissingRequiredSignature,
                "create_vault: payer must sign"@,
            ),
        )
    } else if accounts[1].owner@ != program_id {
        Some(
            types::refusal(
                ProgramError::IncorrectProgramId,
                "create_vault: market not owned by this program"@,
            ),
        )
    } else if accounts[2].owner@ != address::SPL_TOKEN_PROGRAM_ID@ {
        Some(
            types::refusal(
                ProgramError::IncorrectProgramId,
                "create_vault: mint not owned by SPL Token"@,
            ),
        )
    } else if accounts[5].key@ != address::SYSTEM_PROGRAM_ID@ {
        Some(
            types::refusal(
                ProgramError::IncorrectProgramId,
                "create_vault: account[5] is not the System program"@,
            ),
        )
    } else if accounts[6].key@ != address::SPL_TOKEN_PROGRAM_ID@ {
        Some(
            types::refusal(
                ProgramError::IncorrectProgramId,
                "create_vault: account[6] is not the SPL Token program"@,
            ),
        )
    } else {
        None
    }
}

/// What `CreateVault` answers to a vault that is not at its derived address.
pub open spec fn wrong_vault(passed: Seq<u8>, expected: Seq<u8>) -> types::RefusalView {
    types::refusal(
        ProgramError::InvalidSeeds,
        log::keys_line("create_vault: passed vault "@, passed, " != derived PDA "@, expected),
    )
}

/// What `CreateVault` answers once both addresses are known.
pub open spec fn create_vault_plan(
    accounts: Seq<Account>,
    expected_vault: Seq<u8>,
    vault_bump: u8,
    expected_auth: Seq<u8>,
) -> types::Outcome {
    if accounts[3].key@ != expected_vault {
        Err(wrong_vault(accounts[3].key@, expected_vault))
    } else if accounts[4].key@ != expected_auth {
        Err(
            types::refusal(
                ProgramError::InvalidSeeds,
                log::keys_line(
                    "create_vault: passed vault_authority "@,
                    accounts[4].key@,
                    " != derived PDA "@,
                    expected_auth,
                ),
            ),
        )
    } else {
        Ok(
            seq![
                types::StepView::CreateAccount {
                    payer: 0,
                    account: 3,
                    system: 5,
                    space: TOKEN_ACCOUNT_LEN as int,
                    owner: address::SPL_TOKEN_PROGRAM_ID@,
                    seeds: vault_seeds(accounts[1].key@, accounts[2].key@).push(seq![vault_bump]),
                },
                types::StepView::Invoke {
                    instruction: initialize_account_3(
                        accounts[3].key@,
                        accounts[2].key@,
                        accounts[4].key@,
                    ),
                    accounts: seq![3, 2, 6],
                },
                types::StepView::Log {
                    line: log::number_line("vault created (vault bump "@, vault_bump as nat)
                        + ")"@,
                },
            ],
        )
    }
}

/// What `CreateVault` answers.
pub open spec fn create_vault_outcome(
    program_id: Seq<u8>,
    accounts: Seq<Account>,
    payload: Seq<u8>,
) -> types::Outcome {
    match create_vault_refusal(program_id, accounts, payload) {
        Some(e) => Err(e),
        None => {
            let market = accounts[1].key@;
            let vault = address::program_address(
                vault_seeds(market, accounts[2].key@),
                program_id,
            )->Some_0;
            let auth = address::program_address(vault_auth_seeds(market), program_id)->Some_0;
            create_vault_plan(accounts, vault.0, vault.1, auth.0)
        },
    }
}

/// The derivations that `CreateVault` gets to all find an address: that of
/// the vault, and that of its authority if the right vault was passed.
pub open spec fn create_vault_addresses_exist(
    program_id: Seq<u8>,
    accounts: Seq<Account>,
    payload: Seq<u8>,
) -> bool {
    create_vault_refusal(program_id, accounts, payload) is None ==> {
        let vault = address::program_address(
            vault_seeds(accounts[1].key@, accounts[2].key@),
            program_id,
        );
        &&& vault is Some
        &&& accounts[3].key@ == (vault->Some_0).0 ==> address::program_address(
            vault_auth_seeds(accounts[1].key@),
            program_id,
        ) is Some
    }
}

/// Seeds of a vault token account.
pub fn vault_seed_list(market: &[u8; 32], mint: &[u8; 32]) -> (r: Vec<Vec<u8>>)
    ensures
        types::seed_list(r@) == vault_seeds(market@, mint@),
{
    let r: Vec<Vec<u8>> = vec![
        bytes::copy_bytes(&address::VAULT_SEED),
        bytes::copy_bytes(market),
        bytes::copy_bytes(mint),
    ];
    assert(types::seed_list(r@) =~= vault_seeds(market@, mint@));
    r
}

/// Seeds of the token authority of a market's vaults.
pub fn vault_auth_seed_list(market: &[u8; 32]) -> (r: Vec<Vec<u8>>)
    ensures
        types::seed_list(r@) == vault_auth_seeds(market@),
{
    let r: Vec<Vec<u8>> = vec![
        bytes::copy_bytes(&address::VAULT_AUTH_SEED),
        bytes::copy_bytes(market),
    ];
    assert(types::seed_list(r@) =~= vault_auth_seeds(market@));
    r
}

/// Tests an instruction before any address is derived.
pub fn check_create_vault(program_id: &[u8; 32], accounts: &[Account], payload: &[u8]) -> (r: Result<
    (),
    Refusal,
>)
    ensures
        match create_vault_refusal(program_id@, accounts@, payload@) {
            Some(e) => r matches Err(x) && x@ == e,
            None => r is Ok,
        },
{
    if payload.len() != 0 {
        return Err(
            Refusal::logged(
                ProgramError::InvalidInstructionData,
                "create_vault: payload must be empty".to_owned(),
            ),
        );
    }
    if accounts.len() < 7 {
        return Err(Refusal::silent(ProgramError::NotEnoughAccountKeys));
    }
    if !accounts[0].is_signer {
        return Err(
            Refusal::logged(
                ProgramError::MissingRequiredSignature,
                "create_vault: payer must sign".to_owned(),
            ),
        );
    }
    if !bytes::same_bytes(&accounts[1].owner, program_id) {
        return Err(
            Refusal::logged(
                ProgramError::IncorrectProgramId,
                "create_vault: market not owned by this program".to_owned(),
            ),
        );
    }
    if !bytes::same_bytes(&accounts[2].owner, &address::SPL_TOKEN_PROGRAM_ID) {
        return Err(
            Refusal::logged(
                ProgramError::IncorrectProgramId,
                "create_vault: mint not owned by SPL Token".to_owned(),
            ),
        );
    }
    if !bytes::same_bytes(&accounts[5].key, &address::SYSTEM_PROGRAM_ID) {
        return Err(
            Refusal::logged(
                ProgramError::IncorrectProgramId,
                "create_vault: account[5] is not the System program".to_owned(),
            ),
        );
    }
    if !bytes::same_bytes(&accounts[6].key, &address::SPL_TOKEN_PROGRAM_ID) {
        return Err(
            Refusal::logged(
                ProgramError::IncorrectProgramId,
                "create_vault: account[6] is not the SPL Token program".to_owned(),
            ),
        );
    }
    Ok(())
}

/// Builds `InitializeAccount3`.
pub fn initialize_account_3_instruction(
    account: &[u8; 32],
    mint: &[u8; 32],
    owner: &[u8; 32],
) -> (r: Instruction)
    ensures
        r@ == initialize_account_3(account@, mint@, owner@),
{
    let mut data: Vec<u8> = Vec::with_capacity(33);
    data.push(SPL_INITIALIZE_ACCOUNT_3);
    bytes::push_bytes(&mut data, owner);
    let r: Instruction = Instruction {
        program_id: address::SPL_TOKEN_PROGRAM_ID,
        accounts: vec![AccountMeta::new(*account, false), AccountMeta::new_readonly(*mint, false)],
        data,
    };
    assert(r@ =~= initialize_account_3(account@, mint@, owner@));
    r
}

/// Builds `Transfer`.
pub fn transfer_instruction(
    source: &[u8; 32],
    destination: &[u8; 32],
    authority: &[u8; 32],
    amount: u64,
) -> (r: Instruction)
    ensures
        r@ == transfer(source@, destination@, authority@, amount as nat),
{
    let mut data: Vec<u8> = Vec::with_capacity(9);
    data.push(SPL_TRANSFER);
    bytes::push_u64(&mut data, amount);
    let r: Instruction = Instruction {
        program_id: address::SPL_TOKEN_PROGRAM_ID,
        accounts: vec![
            AccountMeta::new(*source, false),
            AccountMeta::new(*destination, false),
            AccountMeta::new_readonly(*authority, true),
        ],
        data,
    };
    assert(r@ =~= transfer(source@, destination@, authority@, amount as nat));
    r
}

/// Refuses a vault that is not at its derived address.
fn refuse_vault(passed: &[u8; 32], expected: &[u8; 32]) -> (r: Refusal)
    ensures
        r@ == wrong_vault(passed@, expected@),
{
    let line: String = log::with_keys(
        "create_vault: passed vault ",
        passed,
        " != derived PDA ",
        expected,
    );
    Refusal::logged(ProgramError::InvalidSeeds, line)
}

/// Decides on an instruction that passed `check_create_vault`, given the
/// addresses of the vault and of its authority.
pub fn plan_create_vault(
    accounts: &[Account],
    expected_vault: &[u8; 32],
    vault_bump: u8,
    expected_auth: &[u8; 32],
) -> (r: Result<Vec<Step>, Refusal>)
    requires
        accounts@.len() >= 7,
    ensures
        types::outcome(r) == create_vault_plan(
            accounts@,
            expected_vault@,
            vault_bump,
            expected_auth@,
        ),
{
    if !bytes::same_bytes(&accounts[3].key, expected_vault) {
        return Err(refuse_vault(&accounts[3].key, expected_vault));
    }
    if !bytes::same_bytes(&accounts[4].key, expected_auth) {
        let line: String = log::with_keys(
            "create_vault: passed vault_authority ",
            &accounts[4].key,
            " != derived PDA ",
            expected_auth,
        );
        return Err(Refusal::logged(ProgramError::InvalidSeeds, line));
    }
    let mut seeds: Vec<Vec<u8>> = vault_seed_list(&accounts[1].key, &accounts[2].key);
    let ghost unbumped = types::seed_list(seeds@);
    seeds.push(vec![vault_bump]);
    proof {
        assert(types::seed_list(seeds@) =~= unbumped.push(seq![vault_bump])) by {
            assert(seeds@.last()@ =~= seq![vault_bump]);
            assert(unbumped.len() == 3);
            assert forall|i: int| 0 <= i < 3 implies types::seed_list(seeds@)[i] == unbumped[i] by {
            }
        }
    }
    let instruction: Instruction = initialize_account_3_instruction(
        &accounts[3].key,
        &accounts[2].key,
        &accounts[4].key,
    );
    let handed: Vec<usize> = vec![3, 2, 6];
    assert(types::positions(handed@) =~= seq![3int, 2, 6]);
    let mut line: String = log::with_number("vault created (vault bump ", vault_bump as u64);
    line.append(")");
    let steps: Vec<Step> = vec![
        Step::CreateAccount {
            payer: 0,
            account: 3,
            system: 5,
            space: TOKEN_ACCOUNT_LEN as u64,
            owner: address::SPL_TOKEN_PROGRAM_ID,
            seeds,
        },
        Step::Invoke { instruction, accounts: handed },
        Step::Log { line },
    ];
    assert(types::outcome(Ok(steps))->Ok_0 =~= create_vault_plan(
        accounts@,
        expected_vault@,
        vault_bump,
        expected_auth@,
    )->Ok_0);
    Ok(steps)
}

/// `CreateVault`: creates the token account that holds one mint for one
/// market, owned by an address that only the program can sign for.
///
/// Accounts:
///   0. `[WRITE, SIGNER]` payer
///   1. `[]`              market: owned by the program
///   2. `[]`              mint: owned by the SPL Token program
///   3. `[WRITE]`         vault token account: the derived address
///   4. `[]`              vault authority: the derived address
///   5. `[]`              System program
///   6. `[]`              SPL Token program
pub fn process_create_vault(program_id: &[u8; 32], accounts: &[Account], payload: &[u8]) -> (r:
    Result<Vec<Step>, Refusal>)
    requires
        create_vault_addresses_exist(program_id@, accounts@, payload@),
    ensures
        types::outcome(r) == create_vault_outcome(program_id@, accounts@, payload@),
{
    match check_create_vault(program_id, accounts, payload) {
        Ok(_) => {},
        Err(e) => return Err(e),
    }
    let seeds: Vec<Vec<u8>> = vault_seed_list(&accounts[1].key, &accounts[2].key);
    let (expected_vault, vault_bump) = match address::find_address(&seeds, program_id) {
        Some(found) => found,
        None => vstd::pervasive::unreached(),
    };
    if !bytes::same_bytes(&accounts[3].key, &expected_vault) {
        return Err(refuse_vault(&accounts[3].key, &expected_vault));
    }
    let auth_seeds: Vec<Vec<u8>> = vault_auth_seed_list(&accounts[1].key);
    match address::find_address(&auth_seeds, program_id) {
        Some((expected_auth, _)) => plan_create_vault(
            accounts,
            &expected_vault,
            vault_bump,
            &expected_auth,
        ),
        None => vstd::pervasive::unreached(),
    }
}

/// What `Deposit` answers.
pub open spec fn deposit_outcome(accounts: Seq<Account>, payload: Seq<u8>) -> types::Outcome {
    if payload.len() != DEPOSIT_PAYLOAD_LEN {
        Err(
            types::refusal(
                ProgramError::InvalidInstructionData,
                log::number_line("deposit: payload must be "@, DEPOSIT_PAYLOAD_LEN as nat)
                    + " bytes (amount u64 LE)"@,
            ),
        )
    } else if bytes::u64_at(payload, 0) == 0 {
        Err(
            types::refusal(
                ProgramError::InvalidInstructionData,
                "deposit: amount must be > 0"@,
            ),
        )
    } else if accounts.len() < 4 {
        Err(types::silent_refusal(ProgramError::NotEnoughAccountKeys))
    } else if !accounts[0].is_signer {
        Err(
            types::refusal(
                ProgramError::MissingRequiredSignature,
                "deposit: user must sign"@,
            ),
        )
    } else if accounts[1].owner@ != address::SPL_TOKEN_PROGRAM_ID@ {
        Err(
            types::refusal(
                ProgramError::IncorrectProgramId,
                "deposit: user_token_acct not owned by SPL Token"@,
            ),
        )
    } else if accounts[2].owner@ != address::SPL_TOKEN_PROGRAM_ID@ {
        Err(
            types::refusal(
                ProgramError::IncorrectProgramId,
                "deposit: vault_token_acct not owned by SPL Token"@,
            ),
        )
    } else if accounts[3].key@ != address::SPL_TOKEN_PROGRAM_ID@ {
        Err(
            types::refusal(
                ProgramError::IncorrectProgramId,
                "deposit: account[3] is not the SPL Token program"@,
            ),
        )
    } else {
        Ok(
            seq![
                types::StepView::Invoke {
                    instruction: transfer(
                        accounts[1].key@,
                        accounts[2].key@,
                        accounts[0].key@,
                        bytes::u64_at(payload, 0),
                    ),
                    accounts: seq![1, 2, 0, 3],
                },
                types::StepView::Log {
                    line: log::number_line(
                        "deposit: transferred "@,
                        bytes::u64_at(payload, 0),
                    ) + " units"@,
                },
            ],
        )
    }
}

/// `Deposit`: moves tokens of the user into a vault.
///
/// Accounts:
///   0. `[SIGNER]` user
///   1. `[WRITE]`  token account of the user
///   2. `[WRITE]`  token account of the vault
///   3. `[]`       SPL Token program
pub fn process_deposit(accounts: &[Account], payload: &[u8]) -> (r: Result<Vec<Step>, Refusal>)
    ensures
        types::outcome(r) == deposit_outcome(accounts@, payload@),
{
    if payload.len() != DEPOSIT_PAYLOAD_LEN {
        let mut line: String = log::with_number(
            "deposit: payload must be ",
            DEPOSIT_PAYLOAD_LEN as u64,
        );
        line.append(" bytes (amount u64 LE)");
        return Err(Refusal::logged(ProgramError::InvalidInstructionData, line));
    }
    let amount: u64 = bytes::read_u64(payload, 0);
    if amount == 0 {
        return Err(
            Refusal::logged(
                ProgramError::InvalidInstructionData,
                "deposit: amount must be > 0".to_owned(),
            ),
        );
    }
    if accounts.len() < 4 {
        return Err(Refusal::silent(ProgramError::NotEnoughAccountKeys));
    }
    if !accounts[0].is_signer {
        return Err(
            Refusal::logged(
                ProgramError::MissingRequiredSignature,
                "deposit: user must sign".to_owned(),
            ),
        );
    }
    if !bytes::same_bytes(&accounts[1].owner, &address::SPL_TOKEN_PROGRAM_ID) {
        return Err(
            Refusal::logged(
                ProgramError::IncorrectProgramId,
                "deposit: user_token_acct not owned by SPL Token".to_owned(),
            ),
        );
    }
    if !bytes::same_bytes(&accounts[2].owner, &address::SPL_TOKEN_PROGRAM_ID) {
        return Err(
            Refusal::logged(
                ProgramError::IncorrectProgramId,
                "deposit: vault_token_acct not owned by SPL Token".to_owned(),
            ),
        );
    }
    if !bytes::same_bytes(&accounts[3].key, &address::SPL_TOKEN_PROGRAM_ID) {
        return Err(
            Refusal::logged(
                ProgramError::IncorrectProgramId,
                "deposit: account[3] is not the SPL Token program".to_owned(),
            ),
        );
    }
    let instruction: Instruction = transfer_instruction(
        &accounts[1].key,
        &accounts[2].key,
        &accounts[0].key,
        amount,
    );
    let handed: Vec<usize> = vec![1, 2, 0, 3];
    assert(types::positions(handed@) =~= seq![1int, 2, 0, 3]);
    let mut line: String = log::with_number("deposit: transferred ", amount);
    line.append(" units");
    let steps: Vec<Step> = vec![
        Step::Invoke { instruction, accounts: handed },
        Step::Log { line },
    ];
    assert(types::outcome(Ok(steps))->Ok_0 =~= deposit_outcome(accounts@, payload@)->Ok_0);
    Ok(steps)
}

} // verus!
