//! `Initialize` and `CreateMarket`: the two ways to bring a market to life.

use vstd::prelude::*;
use vstd::string::StringExecFns;

use crate::bytes;
use crate::program::address;
use crate::program::log;
use crate::program::types;
use crate::program::types::{Account, ProgramError, Refusal, Step};
use crate::state::{Market, MARKET_DISCRIMINATOR};

verus! {

/// Length of the payload of both instructions:
///
/// ```text
///   0  authority   [u8; 32]
///  32  base_mint   [u8; 32]
///  64  quote_mint  [u8; 32]
///  96  tick_size   u64
/// 104  lot_size    u64
/// 112  total
/// ```
pub const MARKET_PAYLOAD_LEN: usize = 112;

/// What both instructions carry.
#[derive(Clone, Copy)]
pub struct MarketParams {
    pub authority: [u8; 32],
    pub base_mint: [u8; 32],
    pub quote_mint: [u8; 32],
    pub tick_size: u64,
    pub lot_size: u64,
}

impl MarketParams {
    /// `b` is the payload that carries these values.
    pub open spec fn laid_out(self, b: Seq<u8>) -> bool {
        &&& b.len() == MARKET_PAYLOAD_LEN
        &&& bytes::part(b, 0, 32) == self.authority@
        &&& bytes::part(b, 32, 32) == self.base_mint@
        &&& bytes::part(b, 64, 32) == self.quote_mint@
        &&& bytes::u64_at(b, 96) == self.tick_size
        &&& bytes::u64_at(b, 104) == self.lot_size
    }

    /// The payload that carries these values.
    pub open spec fn payload(self) -> Seq<u8> {
        self.authority@ + self.base_mint@ + self.quote_mint@ + bytes::le_bytes(
            self.tick_size as nat,
            8,
        ) + bytes::le_bytes(self.lot_size as nat, 8)
    }

    /// Reads a payload.
    pub fn decode(payload: &[u8]) -> (r: MarketParams)
        requires
            payload@.len() == MARKET_PAYLOAD_LEN,
        ensures
            r.laid_out(payload@),
    {
        MarketParams {
            authority: bytes::read_array(payload, 0),
            base_mint: bytes::read_array(payload, 32),
            quote_mint: bytes::read_array(payload, 64),
            tick_size: bytes::read_u64(payload, 96),
            lot_size: bytes::read_u64(payload, 104),
        }
    }

    /// Writes a payload.
    pub fn encode(&self) -> (r: Vec<u8>)
        ensures
            r@ == self.payload(),
    {
        let mut out: Vec<u8> = Vec::with_capacity(MARKET_PAYLOAD_LEN);
        bytes::push_bytes(&mut out, &self.authority);
        assert(out@ =~= self.authority@);
        bytes::push_bytes(&mut out, &self.base_mint);
        bytes::push_bytes(&mut out, &self.quote_mint);
        bytes::push_u64(&mut out, self.tick_size);
        bytes::push_u64(&mut out, self.lot_size);
        out
    }

    /// A payload holds its values at the documented offsets.
    pub proof fn payload_is_laid_out(self)
        ensures
            self.laid_out(self.payload()),
    {
        let b = self.payload();
        bytes::lemma_pow256_values();
        bytes::lemma_le_round_trip(self.tick_size as nat, 8);
        bytes::lemma_le_round_trip(self.lot_size as nat, 8);
        assert(bytes::part(b, 0, 32) =~= self.authority@);
        assert(bytes::part(b, 32, 32) =~= self.base_mint@);
        assert(bytes::part(b, 64, 32) =~= self.quote_mint@);
        assert(bytes::part(b, 96, 8) =~= bytes::le_bytes(self.tick_size as nat, 8));
        assert(bytes::part(b, 104, 8) =~= bytes::le_bytes(self.lot_size as nat, 8));
    }

    /// What is decoded from an encoded payload is what was encoded.
    pub proof fn value_is_unique(self, other: MarketParams, b: Seq<u8>)
        requires
            self.laid_out(b),
            other.laid_out(b),
        ensures
            self == other,
    {
        assert(self.authority =~= other.authority);
        assert(self.base_mint =~= other.base_mint);
        assert(self.quote_mint =~= other.quote_mint);
    }

    /// Two payloads that carry the same values are the same bytes.
    pub proof fn bytes_are_unique(self, a: Seq<u8>, b: Seq<u8>)
        requires
            self.laid_out(a),
            self.laid_out(b),
        ensures
            a == b,
    {
        assert(bytes::part(a, 0, 0) =~= bytes::part(b, 0, 0));
        bytes::lemma_agree_bytes(a, b, 0, 32);
        bytes::lemma_agree_bytes(a, b, 32, 32);
        bytes::lemma_agree_bytes(a, b, 64, 32);
        bytes::lemma_agree_value(a, b, 96, 8);
        bytes::lemma_agree_value(a, b, 104, 8);
        assert(a =~= bytes::part(a, 0, 112));
        assert(b =~= bytes::part(b, 0, 112));
    }
}

/// The data of a market account that was set up from `payload`. The payload
/// has its fields in the order of the account, so it is copied as it is.
pub open spec fn market_data(payload: Seq<u8>, bump: u8) -> Seq<u8> {
    MARKET_DISCRIMINATOR@ + seq![Market::VERSION, bump] + types::zeros(6) + payload + types::zeros(128)
}

/// The market that `market_data` lays out.
fn new_market(params: &MarketParams, bump: u8, Ghost(payload): Ghost<Seq<u8>>) -> (r: Market)
    requires
        params.laid_out(payload),
    ensures
        r.laid_out(market_data(payload, bump)),
{
    let r: Market = Market {
        discriminator: MARKET_DISCRIMINATOR,
        version: Market::VERSION,
        bump,
        _pad0: [0u8; 6],
        authority: params.authority,
        base_mint: params.base_mint,
        quote_mint: params.quote_mint,
        tick_size: params.tick_size,
        lot_size: params.lot_size,
        _reserved: [0u8; 128],
    };
    proof {
        let b = market_data(payload, bump);
        assert(bytes::part(b, 0, 8) =~= r.discriminator@);
        assert(bytes::part(b, 10, 6) =~= r._pad0@);
        assert(bytes::part(b, 16, 32) =~= bytes::part(payload, 0, 32));
        assert(bytes::part(b, 48, 32) =~= bytes::part(payload, 32, 32));
        assert(bytes::part(b, 80, 32) =~= bytes::part(payload, 64, 32));
        assert(bytes::part(b, 112, 8) =~= bytes::part(payload, 96, 8));
        assert(bytes::part(b, 120, 8) =~= bytes::part(payload, 104, 8));
        assert(bytes::part(b, 128, 128) =~= r._reserved@);
    }
    r
}

/// A tick or lot size of zero would make every order invalid.
pub open spec fn zero_step(payload: Seq<u8>) -> bool {
    bytes::u64_at(payload, 96) == 0 || bytes::u64_at(payload, 104) == 0
}

/// What `Initialize` answers: the first test that fails decides.
pub open spec fn initialize_outcome(
    program_id: Seq<u8>,
    accounts: Seq<Account>,
    payload: Seq<u8>,
) -> types::Outcome {
    if payload.len() != MARKET_PAYLOAD_LEN {
        Err(
            types::refusal(
                ProgramError::InvalidInstructionData,
                log::numbers_line(
                    "initialize: payload must be "@,
                    MARKET_PAYLOAD_LEN as nat,
                    " bytes, got "@,
                    payload.len(),
                ),
            ),
        )
    } else if accounts.len() < 1 {
        Err(types::silent_refusal(ProgramError::NotEnoughAccountKeys))
    } else if accounts[0].owner@ != program_id {
        Err(
            types::refusal(
                ProgramError::IncorrectProgramId,
                log::keys_line(
                    "initialize: market owner "@,
                    accounts[0].owner@,
                    " != program "@,
                    program_id,
                ),
            ),
        )
    } else if accounts[0].data@.len() != Market::LEN {
        Err(
            types::refusal(
                ProgramError::InvalidAccountData,
                log::numbers_line(
                    "initialize: market data_len "@,
                    accounts[0].data@.len(),
                    " != "@,
                    Market::LEN as nat,
                ),
            ),
        )
    } else if bytes::part(accounts[0].data@, 0, 8) != types::zeros(8) {
        Err(
            types::refusal(
                ProgramError::AccountAlreadyInitialized,
                "initialize: market already initialized"@,
            ),
        )
    } else if zero_step(payload) {
        Err(
            types::refusal(
                ProgramError::InvalidInstructionData,
                "initialize: tick_size and lot_size must be non-zero"@,
            ),
        )
    } else {
        Ok(
            seq![
                types::StepView::Write { account: 0, data: market_data(payload, 0) },
                types::StepView::Log { line: "market initialized"@ },
            ],
        )
    }
}

/// `Initialize`: turns an account that the program already owns into a market.
///
/// Accounts:
///   0. `[WRITE]` market: owned by the program, `Market::LEN` bytes, its
///      first eight bytes zero.
pub fn process_initialize(program_id: &[u8; 32], accounts: &[Account], payload: &[u8]) -> (r: Result<
    Vec<Step>,
    Refusal,
>)
    ensures
        types::outcome(r) == initialize_outcome(program_id@, accounts@, payload@),
{
    if payload.len() != MARKET_PAYLOAD_LEN {
        let line: String = log::with_numbers(
            "initialize: payload must be ",
            MARKET_PAYLOAD_LEN as u64,
            " bytes, got ",
            payload.len() as u64,
        );
        return Err(Refusal::logged(ProgramError::InvalidInstructionData, line));
    }
    if accounts.len() < 1 {
        return Err(Refusal::silent(ProgramError::NotEnoughAccountKeys));
    }
    let market: &Account = &accounts[0];
    if !bytes::same_bytes(&market.owner, program_id) {
        let line: String = log::with_keys(
            "initialize: market owner ",
            &market.owner,
            " != program ",
            program_id,
        );
        return Err(Refusal::logged(ProgramError::IncorrectProgramId, line));
    }
    if market.data.len() != Market::LEN {
        let line: String = log::with_numbers(
            "initialize: market data_len ",
            market.data.len() as u64,
            " != ",
            Market::LEN as u64,
        );
        return Err(Refusal::logged(ProgramError::InvalidAccountData, line));
    }
    let tag: [u8; 8] = bytes::read_array(&market.data, 0);
    let unset: [u8; 8] = [0u8; 8];
    assert(unset@ =~= types::zeros(8));
    if !bytes::same_bytes(&tag, &unset) {
        return Err(
            Refusal::logged(
                ProgramError::AccountAlreadyInitialized,
                "initialize: market already initialized".to_owned(),
            ),
        );
    }
    let params: MarketParams = MarketParams::decode(payload);
    if params.tick_size == 0 || params.lot_size == 0 {
        return Err(
            Refusal::logged(
                ProgramError::InvalidInstructionData,
                "initialize: tick_size and lot_size must be non-zero".to_owned(),
            ),
        );
    }
    let value: Market = new_market(&params, 0, Ghost(payload@));
    let data: Vec<u8> = value.to_bytes();
    proof {
        value.bytes_are_unique(data@, market_data(payload@, 0));
    }
    let steps: Vec<Step> = vec![
        Step::Write { account: 0, data },
        Step::Log { line: "market initialized".to_owned() },
    ];
    assert(types::outcome(Ok(steps))->Ok_0 =~= initialize_outcome(
        program_id@,
        accounts@,
        payload@,
    )->Ok_0);
    Ok(steps)
}

/// Seeds of a market address, without the bump.
pub open spec fn market_seeds(payload: Seq<u8>) -> Seq<Seq<u8>> {
    seq![address::MARKET_SEED@, bytes::part(payload, 32, 32), bytes::part(payload, 64, 32)]
}

/// What `CreateMarket` refuses before it derives an address, if anything.
pub open spec fn create_market_refusal(accounts: Seq<Account>, payload: Seq<u8>) -> Option<
    types::RefusalView,
> {
    if payload.len() != MARKET_PAYLOAD_LEN {
        Some(
            types::refusal(
                ProgramError::InvalidInstructionData,
                log::numbers_line(
                    "create_market: payload must be "@,
                    MARKET_PAYLOAD_LEN as nat,
                    " bytes, got "@,
                    payload.len(),
                ),
            ),
        )
    } else if accounts.len() < 3 {
        Some(types::silent_refusal(ProgramError::NotEnoughAccountKeys))
    } else if !accounts[0].is_signer {
        Some(
            types::refusal(
                ProgramError::MissingRequiredSignature,
                "create_market: payer must sign"@,
            ),
        )
    } else if accounts[2].key@ != address::SYSTEM_PROGRAM_ID@ {
        Some(
            types::refusal(
                ProgramError::IncorrectProgramId,
                "create_market: account[2] is not the System program"@,
            ),
        )
    } else if zero_step(payload) {
        Some(
            types::refusal(
                ProgramError::InvalidInstructionData,
                "create_market: tick_size and lot_size must be non-zero"@,
            ),
        )
    } else {
        None
    }
}

/// What `CreateMarket` answers once the market address is known.
pub open spec fn create_market_plan(
    program_id: Seq<u8>,
    accounts: Seq<Account>,
    payload: Seq<u8>,
    expected: Seq<u8>,
    bump: u8,
) -> types::Outcome {
    if accounts[1].key@ != expected {
        Err(
            types::refusal(
                ProgramError::InvalidSeeds,
                log::keys_line(
                    "create_market: passed market "@,
                    accounts[1].key@,
                    " != derived PDA "@,
                    expected,
                ),
            ),
        )
    } else {
        Ok(
            seq![
                types::StepView::CreateAccount {
                    payer: 0,
                    account: 1,
                    system: 2,
                    space: Market::LEN as int,
                    owner: program_id,
                    seeds: market_seeds(payload).push(seq![bump]),
                },
                types::StepView::Write { account: 1, data: market_data(payload, bump) },
                types::StepView::Log {
                    line: log::number_line("market created at PDA (bump "@, bump as nat) + ")"@,
                },
            ],
        )
    }
}

/// What `CreateMarket` answers.
pub open spec fn create_market_outcome(
    program_id: Seq<u8>,
    accounts: Seq<Account>,
    payload: Seq<u8>,
) -> types::Outcome {
    match create_market_refusal(accounts, payload) {
        Some(e) => Err(e),
        None => {
            let found = address::program_address(market_seeds(payload), program_id)->Some_0;
            create_market_plan(program_id, accounts, payload, found.0, found.1)
        },
    }
}

/// `CreateMarket` gets as far as deriving the market address.
pub open spec fn create_market_derives(accounts: Seq<Account>, payload: Seq<u8>) -> bool {
    create_market_refusal(accounts, payload) is None
}

/// Tests an instruction before any address is derived.
pub fn check_create_market(accounts: &[Account], payload: &[u8]) -> (r: Result<
    MarketParams,
    Refusal,
>)
    ensures
        match create_market_refusal(accounts@, payload@) {
            Some(e) => r matches Err(x) && x@ == e,
            None => r matches Ok(p) && p.laid_out(payload@),
        },
{
    if payload.len() != MARKET_PAYLOAD_LEN {
        let line: String = log::with_numbers(
            "create_market: payload must be ",
            MARKET_PAYLOAD_LEN as u64,
            " bytes, got ",
            payload.len() as u64,
        );
        return Err(Refusal::logged(ProgramError::InvalidInstructionData, line));
    }
    if accounts.len() < 3 {
        return Err(Refusal::silent(ProgramError::NotEnoughAccountKeys));
    }
    if !accounts[0].is_signer {
        return Err(
            Refusal::logged(
                ProgramError::MissingRequiredSignature,
                "create_market: payer must sign".to_owned(),
            ),
        );
    }
    if !bytes::same_bytes(&accounts[2].key, &address::SYSTEM_PROGRAM_ID) {
        return Err(
            Refusal::logged(
                ProgramError::IncorrectProgramId,
                "create_market: account[2] is not the System program".to_owned(),
            ),
        );
    }
    let params: MarketParams = MarketParams::decode(payload);
    if params.tick_size == 0 || params.lot_size == 0 {
        return Err(
            Refusal::logged(
                ProgramError::InvalidInstructionData,
                "create_market: tick_size and lot_size must be non-zero".to_owned(),
            ),
        );
    }
    Ok(params)
}

/// Seeds of the market address that belongs to a pair of mints.
pub fn market_seed_list(base_mint: &[u8; 32], quote_mint: &[u8; 32]) -> (r: Vec<Vec<u8>>)
    ensures
        types::seed_list(r@) == seq![address::MARKET_SEED@, base_mint@, quote_mint@],
{
    let r: Vec<Vec<u8>> = vec![
        bytes::copy_bytes(&address::MARKET_SEED),
        bytes::copy_bytes(base_mint),
        bytes::copy_bytes(quote_mint),
    ];
    assert(types::seed_list(r@) =~= seq![address::MARKET_SEED@, base_mint@, quote_mint@]);
    r
}

/// Decides on an instruction that passed `check_create_market`, given the
/// address that its mints lead to.
pub fn plan_create_market(
    program_id: &[u8; 32],
    accounts: &[Account],
    payload: &[u8],
    expected: &[u8; 32],
    bump: u8,
) -> (r: Result<Vec<Step>, Refusal>)
    requires
        create_market_derives(accounts@, payload@),
    ensures
        types::outcome(r) == create_market_plan(
            program_id@,
            accounts@,
            payload@,
            expected@,
            bump,
        ),
{
    if !bytes::same_bytes(&accounts[1].key, expected) {
        let line: String = log::with_keys(
            "create_market: passed market ",
            &accounts[1].key,
            " != derived PDA ",
            expected,
        );
        return Err(Refusal::logged(ProgramError::InvalidSeeds, line));
    }
    let params: MarketParams = MarketParams::decode(payload);
    let mut seeds: Vec<Vec<u8>> = market_seed_list(&params.base_mint, &params.quote_mint);
    let ghost unbumped = types::seed_list(seeds@);
    seeds.push(vec![bump]);
    let value: Market = new_market(&params, bump, Ghost(payload@));
    let data: Vec<u8> = value.to_bytes();
    proof {
        value.bytes_are_unique(data@, market_data(payload@, bump));
        assert(types::seed_list(seeds@) =~= market_seeds(payload@).push(seq![bump])) by {
            assert(seeds@.last()@ =~= seq![bump]);
            assert(unbumped =~= market_seeds(payload@));
            assert forall|i: int| 0 <= i < 3 implies types::seed_list(seeds@)[i] == unbumped[i] by {
            }
        }
    }
    let mut line: String = log::with_number("market created at PDA (bump ", bump as u64);
    line.append(")");
    let steps: Vec<Step> = vec![
        Step::CreateAccount {
            payer: 0,
            account: 1,
            system: 2,
            space: Market::LEN as u64,
            owner: *program_id,
            seeds,
        },
        Step::Write { account: 1, data },
        Step::Log { line },
    ];
    assert(types::outcome(Ok(steps))->Ok_0 =~= create_market_plan(
        program_id@,
        accounts@,
        payload@,
        expected@,
        bump,
    )->Ok_0);
    Ok(steps)
}

/// `CreateMarket`: creates the market account of a pair of mints at its
/// derived address and writes it.
///
/// Accounts:
///   0. `[WRITE, SIGNER]` payer
///   1. `[WRITE]`         market: the derived address
///   2. `[]`              System program
pub fn process_create_market(program_id: &[u8; 32], accounts: &[Account], payload: &[u8]) -> (r:
    Result<Vec<Step>, Refusal>)
    requires
        create_market_derives(accounts@, payload@) ==> address::program_address(
            market_seeds(payload@),
            program_id@,
        ) is Some,
    ensures
        types::outcome(r) == create_market_outcome(program_id@, accounts@, payload@),
{
    let params: MarketParams = match check_create_market(accounts, payload) {
        Ok(params) => params,
        Err(e) => return Err(e),
    };
    let seeds: Vec<Vec<u8>> = market_seed_list(&params.base_mint, &params.quote_mint);
    assert(types::seed_list(seeds@) =~= market_seeds(payload@));
    match address::find_address(&seeds, program_id) {
        Some((expected, bump)) => plan_create_market(
            program_id,
            accounts,
            payload,
            &expected,
            bump,
        ),
        None => vstd::pervasive::unreached(),
    }
}

} // verus!
