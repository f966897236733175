//! What the program reads of a transaction and what it asks the runtime to do.

use vstd::prelude::*;

verus! {

/// One account handed to the program.
pub struct Account {
    pub key: [u8; 32],
    pub owner: [u8; 32],
    pub is_signer: bool,
    pub data: Vec<u8>,
}

/// Why the program refused an instruction.
#[derive(Clone, Copy, Debug, PartialEq, Eq, Structural)]
pub enum ProgramError {
    InvalidInstructionData,
    NotEnoughAccountKeys,
    IncorrectProgramId,
    InvalidAccountData,
    AccountAlreadyInitialized,
    UninitializedAccount,
    MissingRequiredSignature,
    InvalidSeeds,
}

/// A refused instruction: the error that the program returns, and the line
/// that it logs before that, if any.
#[derive(Debug)]
pub struct Refusal {
    pub error: ProgramError,
    pub line: Option<String>,
}

/// The mathematical value of a `Refusal`.
#[verifier::ext_equal]
pub struct RefusalView {
    pub error: ProgramError,
    pub line: Option<Seq<char>>,
}

impl View for Refusal {
    type V = RefusalView;

    open spec fn view(&self) -> RefusalView {
        RefusalView {
            error: self.error,
            line: match self.line {
                Some(line) => Some(line@),
                None => None,
            },
        }
    }
}

/// The program logs `line` and returns `error`.
pub open spec fn refusal(error: ProgramError, line: Seq<char>) -> RefusalView {
    RefusalView { error, line: Some(line) }
}

/// The program returns `error` and logs nothing.
pub open spec fn silent_refusal(error: ProgramError) -> RefusalView {
    RefusalView { error, line: None }
}

impl Refusal {
    /// Log `line` and return `error`.
    pub fn logged(error: ProgramError, line: String) -> (r: Refusal)
        ensures
            r@ == refusal(error, line@),
    {
        Refusal { error, line: Some(line) }
    }

    /// Return `error` and log nothing.
    pub fn silent(error: ProgramError) -> (r: Refusal)
        ensures
            r@ == silent_refusal(error),
    {
        Refusal { error, line: None }
    }
}

/// One account of an instruction, with the privileges it is passed with.
#[derive(Clone, Copy)]
pub struct AccountMeta {
    pub pubkey: [u8; 32],
    pub is_signer: bool,
    pub is_writable: bool,
}

/// The mathematical value of an `AccountMeta`.
pub struct MetaView {
    pub pubkey: Seq<u8>,
    pub is_signer: bool,
    pub is_writable: bool,
}

impl View for AccountMeta {
    type V = MetaView;

    open spec fn view(&self) -> MetaView {
        MetaView {
            pubkey: self.pubkey@,
            is_signer: self.is_signer,
            is_writable: self.is_writable,
        }
    }
}

/// An account that the instruction may change.
pub open spec fn writable(pubkey: Seq<u8>, is_signer: bool) -> MetaView {
    MetaView { pubkey, is_signer, is_writable: true }
}

/// An account that the instruction only reads.
pub open spec fn readonly(pubkey: Seq<u8>, is_signer: bool) -> MetaView {
    MetaView { pubkey, is_signer, is_writable: false }
}

impl AccountMeta {
    /// An account that the instruction may change.
    pub fn new(pubkey: [u8; 32], is_signer: bool) -> (r: AccountMeta)
        ensures
            r@ == writable(pubkey@, is_signer),
    {
        AccountMeta { pubkey, is_signer, is_writable: true }
    }

    /// An account that the instruction only reads.
    pub fn new_readonly(pubkey: [u8; 32], is_signer: bool) -> (r: AccountMeta)
        ensures
            r@ == readonly(pubkey@, is_signer),
    {
        AccountMeta { pubkey, is_signer, is_writable: false }
    }
}

/// A call of a program.
pub struct Instruction {
    pub program_id: [u8; 32],
    pub accounts: Vec<AccountMeta>,
    pub data: Vec<u8>,
}

/// The mathematical value of an `Instruction`.
#[verifier::ext_equal]
pub struct InstructionView {
    pub program_id: Seq<u8>,
    pub accounts: Seq<MetaView>,
    pub data: Seq<u8>,
}

/// The mathematical values of a list of account metas.
pub open spec fn metas(s: Seq<AccountMeta>) -> Seq<MetaView> {
    Seq::new(s.len(), |i: int| s[i]@)
}

impl View for Instruction {
    type V = InstructionView;

    open spec fn view(&self) -> InstructionView {
        InstructionView {
            program_id: self.program_id@,
            accounts: metas(self.accounts@),
            data: self.data@,
        }
    }
}

/// One thing that an accepted instruction makes the runtime do. Accounts are
/// given by their position in the list that the program was called with.
pub enum Step {
    /// Create `account` through the System program: rent-exempt, `space` bytes
    /// long and owned by `owner`. `payer` pays, and the program signs for the
    /// new account with `seeds`.
    CreateAccount {
        payer: usize,
        account: usize,
        system: usize,
        space: u64,
        owner: [u8; 32],
        seeds: Vec<Vec<u8>>,
    },
    /// Call another program, handing on these accounts.
    Invoke { instruction: Instruction, accounts: Vec<usize> },
    /// Overwrite the first bytes of the data of `account`.
    Write { account: usize, data: Vec<u8> },
    /// Take this many zero bytes from the heap for the compute benchmark.
    BenchAlloc { heap_bytes: u32 },
    /// Run the hash rounds of the compute benchmark on those bytes.
    BenchRounds { rounds: u32 },
    /// Write a line to the log.
    Log { line: String },
    /// Write the compute units that are left to the log.
    LogComputeUnits,
}

/// The mathematical value of a `Step`.
pub enum StepView {
    CreateAccount {
        payer: int,
        account: int,
        system: int,
        space: int,
        owner: Seq<u8>,
        seeds: Seq<Seq<u8>>,
    },
    Invoke { instruction: InstructionView, accounts: Seq<int> },
    Write { account: int, data: Seq<u8> },
    BenchAlloc { heap_bytes: int },
    BenchRounds { rounds: int },
    Log { line: Seq<char> },
    LogComputeUnits,
}

/// The mathematical values of a list of seeds.
pub open spec fn seed_list(s: Seq<Vec<u8>>) -> Seq<Seq<u8>> {
    Seq::new(s.len(), |i: int| s[i]@)
}

/// The mathematical values of a list of positions.
pub open spec fn positions(s: Seq<usize>) -> Seq<int> {
    Seq::new(s.len(), |i: int| s[i] as int)
}

impl View for Step {
    type V = StepView;

    open spec fn view(&self) -> StepView {
        match *self {
            Step::CreateAccount { payer, account, system, space, owner, seeds } => {
                StepView::CreateAccount {
                    payer: payer as int,
                    account: account as int,
                    system: system as int,
                    space: space as int,
                    owner: owner@,
                    seeds: seed_list(seeds@),
                }
            },
            Step::Invoke { instruction, accounts } => StepView::Invoke {
                instruction: instruction@,
                accounts: positions(accounts@),
            },
            Step::Write { account, data } => StepView::Write {
                account: account as int,
                data: data@,
            },
            Step::BenchAlloc { heap_bytes } => StepView::BenchAlloc {
                heap_bytes: heap_bytes as int,
            },
            Step::BenchRounds { rounds } => StepView::BenchRounds { rounds: rounds as int },
            Step::Log { line } => StepView::Log { line: line@ },
            Step::LogComputeUnits => StepView::LogComputeUnits,
        }
    }
}

/// What the program answers: the steps to take, in order, or a refusal.
pub type Outcome = Result<Seq<StepView>, RefusalView>;

/// The mathematical value of an answer.
pub open spec fn outcome(r: Result<Vec<Step>, Refusal>) -> Outcome {
    match r {
        Ok(steps) => Ok(Seq::new(steps@.len(), |i: int| steps@[i]@)),
        Err(e) => Err(e@),
    }
}

/// `n` zero bytes.
pub open spec fn zeros(n: nat) -> Seq<u8> {
    Seq::new(n, |i: int| 0u8)
}

} // verus!
