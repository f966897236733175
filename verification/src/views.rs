//! The mathematical values of what the library hands out hold exactly what the
//! values themselves hold.

use vstd::prelude::*;

use crate::client::bench;
use crate::client::builder;
use crate::client::builder::{BuilderPlan, PlanView};
use crate::client::common;
use crate::client::keys;
use crate::client::keys::{ClientError, ErrorView, KeyError};
use crate::client::market;
use crate::program::address;
use crate::program::market::MarketParams;
use crate::program::types;
use crate::program::types::{AccountMeta, Instruction, Refusal, Step, StepView};
use crate::scenario::account_layout_demo;
use crate::scenario::account_layout_demo::{AccountLayoutDemoResult, AccountLayoutEntry};
use crate::scenario::in_process;
use crate::scenario::in_process::ResultView;
use crate::scenario::instruction_dispatch_demo::{
    InstructionDispatchDemoResult, InstructionEntry,
};
use crate::scenario::subprocess;
use crate::scenario::subprocess::{Advance, CommandView, StepCommand};
use crate::scenario::types::{OutcomeStatus, StatusView, StepResult};
use crate::split;

verus! {

/// An instruction is seen with its program, its data, and every account with its
/// key and privileges, in order.
pub proof fn instructions_are_seen_whole(ix: Instruction, i: int)
    ensures
        ix@.program_id == ix.program_id@,
        ix@.data == ix.data@,
        ix@.accounts.len() == ix.accounts@.len(),
        0 <= i < ix.accounts@.len() ==> {
            &&& ix@.accounts[i].pubkey == ix.accounts@[i].pubkey@
            &&& ix@.accounts[i].is_signer == ix.accounts@[i].is_signer
            &&& ix@.accounts[i].is_writable == ix.accounts@[i].is_writable
        },
{
}

/// An account that may change is declared so, and one that is only read is not; the
/// key and the signature are those that were asked for.
pub proof fn privileges_are_declared(meta: AccountMeta, pubkey: Seq<u8>, signs: bool)
    ensures
        meta@ == types::writable(pubkey, signs) <==> meta.pubkey@ == pubkey && meta.is_signer
            == signs && meta.is_writable,
        meta@ == types::readonly(pubkey, signs) <==> meta.pubkey@ == pubkey && meta.is_signer
            == signs && !meta.is_writable,
{
}

/// Lists are seen entry by entry, in order.
pub proof fn lists_are_seen_in_order(
    instructions: Seq<Instruction>,
    metas: Seq<AccountMeta>,
    seeds: Seq<Vec<u8>>,
    texts: Seq<String>,
    variables: Seq<(String, String)>,
    i: int,
)
    ensures
        bench::views(instructions).len() == instructions.len(),
        0 <= i < instructions.len() ==> bench::views(instructions)[i] == instructions[i]@,
        types::metas(metas).len() == metas.len(),
        0 <= i < metas.len() ==> types::metas(metas)[i] == metas[i]@,
        types::seed_list(seeds).len() == seeds.len(),
        0 <= i < seeds.len() ==> types::seed_list(seeds)[i] == seeds[i]@,
        split::texts(texts).len() == texts.len(),
        0 <= i < texts.len() ==> split::texts(texts)[i] == texts[i]@,
        subprocess::env_view(variables).len() == variables.len(),
        0 <= i < variables.len() ==> subprocess::env_view(variables)[i] == (
            variables[i].0@,
            variables[i].1@,
        ),
{
}

/// An answer of the program is seen as the steps, in order, or as the refusal with
/// its error and its line.
pub proof fn answers_are_seen_whole(steps: Vec<Step>, refusal: Refusal, i: int)
    ensures
        types::outcome(Ok(steps)) is Ok,
        types::outcome(Ok(steps))->Ok_0.len() == steps@.len(),
        0 <= i < steps@.len() ==> types::outcome(Ok(steps))->Ok_0[i] == steps@[i]@,
        types::outcome(Err(refusal)) is Err,
        types::outcome(Err(refusal))->Err_0.error == refusal.error,
        refusal.line is None <==> types::outcome(Err(refusal))->Err_0.line is None,
        refusal.line matches Some(line) ==> types::outcome(Err(refusal))->Err_0.line == Some(line@),
{
}

/// A step is seen as what it is, with every value that it holds.
pub proof fn steps_are_seen_whole(step: Step)
    ensures
        match step {
            Step::CreateAccount { payer, account, system, space, owner, seeds } => step@ == (
            StepView::CreateAccount {
                payer: payer as int,
                account: account as int,
                system: system as int,
                space: space as int,
                owner: owner@,
                seeds: Seq::new(seeds@.len(), |i: int| seeds@[i]@),
            }),
            Step::Invoke { instruction, accounts } => step@ == (StepView::Invoke {
                instruction: instruction@,
                accounts: Seq::new(accounts@.len(), |i: int| accounts@[i] as int),
            }),
            Step::Write { account, data } => step@ == (StepView::Write {
                account: account as int,
                data: data@,
            }),
            Step::BenchAlloc { heap_bytes } => step@ == (StepView::BenchAlloc {
                heap_bytes: heap_bytes as int,
            }),
            Step::BenchRounds { rounds } => step@ == (StepView::BenchRounds {
                rounds: rounds as int,
            }),
            Step::Log { line } => step@ == (StepView::Log { line: line@ }),
            Step::LogComputeUnits => step@ == StepView::LogComputeUnits,
        },
{
}

/// A requested key is seen as that key, and an error as that error: which text was
/// no key and why, or what is wrong with the options.
pub proof fn requests_are_seen_whole(
    key: [u8; 32],
    ix: Instruction,
    error: ClientError,
    context: String,
    why: KeyError,
)
    ensures
        keys::key_request(Ok(key)) == Ok::<Seq<u8>, ErrorView>(key@),
        keys::key_request(Err(error)) == Err::<Seq<u8>, ErrorView>(error@),
        keys::key_result(Ok(key)) == Ok::<Seq<u8>, KeyError>(key@),
        keys::key_result(Err(why)) == Err::<Seq<u8>, KeyError>(why),
        keys::request(Ok(Some(ix))) == Ok::<Option<types::InstructionView>, ErrorView>(Some(ix@)),
        keys::request(Ok(None)) == Ok::<Option<types::InstructionView>, ErrorView>(None),
        keys::request(Err(error)) == Err::<Option<types::InstructionView>, ErrorView>(error@),
        builder::planned(Some(Some(ix))) == Some(Some(ix@)),
        builder::planned(Some(None)) == Some(None::<types::InstructionView>),
        builder::planned(None) is None,
        (ClientError::BadKey { context, why })@ == (ErrorView::BadKey { context: context@, why }),
        (ClientError::Usage { message: context })@ == (ErrorView::Usage { message: context@ }),
        keys::usage(context@) == (ErrorView::Usage { message: context@ }),
{
}

/// Text and data that may be missing are seen as they are.
pub proof fn options_are_seen_whole(text: &str, owned: String, data: &[u8])
    ensures
        keys::opt_text(Some(text)) == Some(text@),
        keys::opt_text(None) is None,
        keys::opt_string(Some(owned)) == Some(owned@),
        keys::opt_string(None) is None,
        common::opt_data(Some(data)) == Some(data@),
        common::opt_data(None) is None,
{
}

/// A derived address is seen with its key and its bump.
pub proof fn addresses_are_seen_whole(key: [u8; 32], bump: u8, seeds: Seq<Seq<u8>>, program: Seq<u8>)
    ensures
        address::derived(Some((key, bump))) == Some((key@, bump)),
        address::derived(None) is None,
        address::leads_to(seeds, program, key@) <==> match address::program_address(seeds, program) {
            Some(found) => found.0 == key@,
            None => false,
        },
{
}

/// The options of a market are seen value by value.
pub proof fn market_options_are_seen_whole(program: [u8; 32], params: MarketParams, error: ClientError)
    ensures
        market::market_request_of(Ok((program, params))) is Ok,
        ({
            let seen = market::market_request_of(Ok((program, params)))->Ok_0;
            &&& seen.program == program@
            &&& seen.authority == params.authority@
            &&& seen.base_mint == params.base_mint@
            &&& seen.quote_mint == params.quote_mint@
            &&& seen.tick_size == params.tick_size
            &&& seen.lot_size == params.lot_size
        }),
        market::market_request_of(Err(error)) is Err,
        market::market_request_of(Err(error))->Err_0 == error@,
{
}

/// A plan of the builder command is seen value by value.
pub proof fn plans_are_seen_whole(plan: BuilderPlan, error: ClientError)
    ensures
        builder::plan_of(Ok(plan)) == Ok::<PlanView, ErrorView>(plan@),
        builder::plan_of(Err(error)) == Err::<PlanView, ErrorView>(error@),
        match plan {
            BuilderPlan::Show => plan@ is Show,
            BuilderPlan::CreateFeeVault { mint } => plan@ == (PlanView::CreateFeeVault {
                mint: mint@,
            }),
            BuilderPlan::Register { max_share_bps } => plan@ == (PlanView::Register {
                max_share_bps,
            }),
            BuilderPlan::Place { market, mint, user_token, side, price, size } => plan@ == (
            PlanView::Place {
                market: market@,
                mint: mint@,
                user_token: user_token@,
                side,
                price,
                size,
            }),
            BuilderPlan::Claim { mint, builder_token } => plan@ == (PlanView::Claim {
                mint: mint@,
                builder_token: builder_token@,
            }),
        },
{
}

/// A tour of the account types is seen number by number and row by row.
pub proof fn layouts_are_seen_whole(d: AccountLayoutDemoResult, rows: Seq<AccountLayoutEntry>, i: int)
    ensures
        account_layout_demo::entries_view(rows).len() == rows.len(),
        0 <= i < rows.len() ==> {
            let row = account_layout_demo::entries_view(rows)[i];
            &&& row.type_label == rows[i].type_label@
            &&& row.discriminator == rows[i].discriminator@
            &&& row.discriminator_text == rows[i].discriminator_text@
            &&& row.size_bytes == rows[i].size_bytes
            &&& row.version == rows[i].version
        },
        d@.entries == account_layout_demo::entries_view(d.entries@),
        d@.orderbook_capacity == d.orderbook_capacity,
        d@.orderbook_size == d.orderbook_size,
        d@.orderbook_bytes_per_order == d.orderbook_bytes_per_order,
        d@.slab_capacity == d.slab_capacity,
        d@.slab_size == d.slab_size,
        d@.slab_bytes_per_order == d.slab_bytes_per_order,
{
}

/// The table of instructions is seen row by row.
pub proof fn instruction_rows_are_seen_whole(d: InstructionDispatchDemoResult, e: InstructionEntry, i: int)
    ensures
        d@.len() == d.entries@.len(),
        0 <= i < d.entries@.len() ==> d@[i] == d.entries@[i]@,
        e@.tag == e.tag,
        e@.name == e.name@,
        e@.category == e.category@,
        e@.description == e.description@,
{
}

/// What the steps of a run gave, and how its checks went, is seen in order.
pub proof fn results_are_seen_whole(
    results: Seq<StepResult>,
    statuses: Seq<OutcomeStatus>,
    layout: AccountLayoutDemoResult,
    dispatch: InstructionDispatchDemoResult,
    why: String,
    i: int,
)
    ensures
        in_process::results_view(results).len() == results.len(),
        0 <= i < results.len() ==> in_process::results_view(results)[i] == results[i]@,
        in_process::statuses_view(statuses).len() == statuses.len(),
        0 <= i < statuses.len() ==> in_process::statuses_view(statuses)[i] == statuses[i]@,
        StepResult::AccountLayoutDemo(layout)@ == ResultView::Layout(layout@),
        StepResult::InstructionDispatch(dispatch)@ == ResultView::Dispatch(dispatch@),
        OutcomeStatus::Pass@ is Pass,
        OutcomeStatus::Fail(why)@ == StatusView::Fail(why@),
{
}

/// What a run does next is seen with its output, its place, its report and its
/// command, word by word.
pub proof fn commands_are_seen_whole(next: Advance, command: StepCommand)
    ensures
        next@.output == next.output@,
        next@.index == next.state.index,
        next@.report == next.state.report,
        next.command is None <==> next@.command is None,
        next.command matches Some(c) ==> next@.command == Some(c@),
        match command {
            StepCommand::Shell { script } => command@ == (CommandView::Shell { script: script@ }),
            StepCommand::Direct { program, args } => command@ == (CommandView::Direct {
                program: program@,
                args: Seq::new(args@.len(), |i: int| args@[i]@),
            }),
        },
{
}

} // verus!
