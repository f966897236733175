//! What the options of the commands come to: which plan is made of them, and which
//! of several complaints comes first.

use vstd::prelude::*;

use crate::client::book;
use crate::client::book::BookArgs;
use crate::client::builder;
use crate::client::builder::{BuilderArgs, PlanView};
use crate::client::funding;
use crate::client::funding::FundingArgs;
use crate::client::keys;
use crate::client::keys::ErrorView;
use crate::client::oracle;
use crate::client::oracle::OracleArgs;
use crate::client::position;
use crate::client::position::{PositionArgs, PositionKeys};
use crate::client::sent;
use crate::client::slab;
use crate::client::slab::SlabArgs;
use crate::client::stats;
use crate::client::trading_vault;
use crate::client::trading_vault::{VaultArgs, VaultKeys};
use crate::text;

verus! {

/// `builder --create-fee-vault` is for the mint that is named.
pub proof fn fee_vaults_are_planned_as_asked(args: BuilderArgs, mint: Seq<u8>)
    requires
        args.create_fee_vault && !args.register && !args.place_with_builder && !args.claim,
        sent::names_key(args.mint, mint),
    ensures
        builder::builder_plan(args) == Ok::<PlanView, ErrorView>(PlanView::CreateFeeVault { mint }),
{
    assert(!sent::two_are_set(
        seq![args.create_fee_vault, args.register, args.place_with_builder, args.claim],
    ));
    sent::two_modes_are_too_many(
        seq![args.create_fee_vault, args.register, args.place_with_builder, args.claim],
    );
}

/// `builder --register` is for the share that is given.
pub proof fn registrations_are_planned_as_asked(args: BuilderArgs, share: u64)
    requires
        args.register && !args.create_fee_vault && !args.place_with_builder && !args.claim,
        args.max_share_bps == Some(share),
    ensures
        builder::builder_plan(args) == Ok::<PlanView, ErrorView>(
            PlanView::Register { max_share_bps: share },
        ),
{
    sent::two_modes_are_too_many(
        seq![args.create_fee_vault, args.register, args.place_with_builder, args.claim],
    );
}

/// `builder --place-with-builder` is for the market, the mint and the token account
/// that are named, on the side that is named, at the price and of the size given.
pub proof fn builder_orders_are_planned_as_asked(
    args: BuilderArgs,
    market: Seq<u8>,
    mint: Seq<u8>,
    user_token: Seq<u8>,
    side: u8,
    price: u64,
    size: u64,
)
    requires
        args.place_with_builder && !args.create_fee_vault && !args.register && !args.claim,
        sent::names_key(args.market, market),
        sent::names_key(args.mint, mint),
        sent::names_key(args.user_token_account, user_token),
        side == 0 ==> sent::says(args.side, "bid"@),
        side != 0 ==> side == 1 && sent::says(args.side, "ask"@),
        args.price == Some(price),
        args.size == Some(size),
    ensures
        builder::builder_plan(args) == Ok::<PlanView, ErrorView>(
            PlanView::Place { market, mint, user_token, side, price, size },
        ),
{
    reveal_strlit("bid");
    reveal_strlit("ask");
    assert("bid"@[0] != "ask"@[0]);
    sent::two_modes_are_too_many(
        seq![args.create_fee_vault, args.register, args.place_with_builder, args.claim],
    );
}

/// `builder --claim` is for the mint that is named, to the token account that is
/// named.
pub proof fn claims_are_planned_as_asked(args: BuilderArgs, mint: Seq<u8>, builder_token: Seq<u8>)
    requires
        args.claim && !args.create_fee_vault && !args.register && !args.place_with_builder,
        sent::names_key(args.mint, mint),
        sent::names_key(args.builder_token_account, builder_token),
    ensures
        builder::builder_plan(args) == Ok::<PlanView, ErrorView>(
            PlanView::Claim { mint, builder_token },
        ),
{
    sent::two_modes_are_too_many(
        seq![args.create_fee_vault, args.register, args.place_with_builder, args.claim],
    );
}

/// Of what is missing for an order, the market is complained about first, then the
/// mint, the token account, the side, the price and the size.
pub proof fn missing_order_options_are_named(
    args: BuilderArgs,
    market: Seq<u8>,
    mint: Seq<u8>,
    user_token: Seq<u8>,
)
    requires
        args.place_with_builder && !args.create_fee_vault && !args.register && !args.claim,
    ensures
        ({
            let r = builder::builder_plan(args);
            let sided = sent::says(args.side, "bid"@) || sent::says(args.side, "ask"@);
            &&& args.market is None ==> complains(r, "--market required for --place-with-builder"@)
            &&& sent::names_key(args.market, market) && args.mint is None ==> complains(
                r,
                "--mint required for this mode"@,
            )
            &&& sent::names_key(args.market, market) && sent::names_key(args.mint, mint)
                && args.user_token_account is None ==> complains(
                r,
                "--user-token-account required for --place-with-builder"@,
            )
            &&& sent::names_key(args.market, market) && sent::names_key(args.mint, mint)
                && sent::names_key(args.user_token_account, user_token) ==> {
                &&& !sided ==> complains(r, "--side bid|ask required"@)
                &&& sided && args.price is None ==> complains(r, "--price required"@)
                &&& sided && args.price is Some && args.size is None ==> complains(
                    r,
                    "--size required"@,
                )
            }
        }),
{
    sent::two_modes_are_too_many(
        seq![args.create_fee_vault, args.register, args.place_with_builder, args.claim],
    );
}

/// The options are refused with this message.
pub open spec fn complains(r: Result<PlanView, ErrorView>, message: Seq<char>) -> bool {
    r matches Err(ErrorView::Usage { message: said }) && said == message
}

/// A key that may be left out is the key of zeros then; a text that is no key is
/// complained about with the option that it stands for.
pub proof fn missing_keys_are_zeros(option: Option<Seq<char>>, context: Seq<char>, default: Seq<u8>)
    ensures
        option is None ==> (keys::key_or_default(option) matches Ok(key) && key.len() == 32
            && forall|i: int| 0 <= i < 32 ==> key[i] == 0),
        option matches Some(t) ==> (keys::parsed_key(t) matches Err(why) ==> keys::key_or(
            option,
            context,
            default,
        ) == Err::<Seq<u8>, ErrorView>(ErrorView::BadKey { context, why })
            && keys::key_or_default(option) == Err::<Seq<u8>, ErrorView>(
            ErrorView::BadKey { context: "parse pubkey"@, why },
        )),
{
}

/// The mode of `stats` is called what is sent.
pub proof fn stats_modes_are_named()
    ensures
        stats::stats_mode(true) == "CreateStats (init)"@,
        stats::stats_mode(false) == "BumpStats"@,
{
}

/// The request is refused with this message.
pub open spec fn refused(r: keys::Request, message: Seq<char>) -> bool {
    r matches Err(ErrorView::Usage { message: said }) && said == message
}

/// The request is refused because this text, given for the option that `context`
/// names, is no key.
pub open spec fn unreadable(r: keys::Request, text: Seq<char>, context: Seq<char>) -> bool {
    keys::parsed_key(text) matches Err(why) ==> (r matches Err(
        ErrorView::BadKey { context: said, why: reason },
    ) && said == context && reason == why)
}

/// What `book` refuses, and with which words: two modes first; then of an order the side,
/// the price and the size, and of a cancellation the order.
pub proof fn book_complaints_say_what_is_wrong(
    args: BookArgs,
    program: Seq<u8>,
    payer: Seq<u8>,
    market: Seq<u8>,
    book: Seq<u8>,
)
    ensures
        ({
            let r = book::book_request(args, program, payer, market, book);
            let two = sent::two_are_set(seq![args.init, args.place, args.cancel]);
            let sided = sent::says(args.side, "bid"@) || sent::says(args.side, "ask"@);
            &&& two ==> refused(r, "--init, --place, --cancel are mutually exclusive"@)
            &&& !two && args.place ==> {
                &&& args.side is None ==> refused(
                    r,
                    "--side"@ + " must be 'bid' or 'ask', got "@ + "None"@,
                )
                &&& args.side is Some && !sided ==> refused(
                    r,
                    "--side"@ + " must be 'bid' or 'ask', got "@ + ("Some("@ + text::quoted_text(
                        args.side->Some_0@,
                    ) + ")"@),
                )
                &&& sided && args.price is None ==> refused(r, "--price required"@)
                &&& sided && args.price is Some && args.size is None ==> refused(
                    r,
                    "--size required"@,
                )
            }
            &&& !two && args.cancel && args.order_id is None ==> refused(r, "--order-id required"@)
        }),
{
    let flags = seq![args.init, args.place, args.cancel];
    sent::two_modes_are_too_many(flags);
    assert(flags[0] == args.init && flags[1] == args.place && flags[2] == args.cancel);
}

/// What `slab` refuses, and with which words.
pub proof fn slab_complaints_say_what_is_wrong(
    args: SlabArgs,
    program: Seq<u8>,
    payer: Seq<u8>,
    market: Seq<u8>,
    slab: Seq<u8>,
)
    ensures
        ({
            let r = slab::slab_request(args, program, payer, market, slab);
            let two = sent::two_are_set(seq![args.create, args.place, args.matching]);
            let sided = sent::says(args.side, "bid"@) || sent::says(args.side, "ask"@);
            let taking = sent::says(args.taker_side, "bid"@) || sent::says(
                args.taker_side,
                "ask"@,
            );
            &&& two ==> refused(r, "--create, --place, --match are mutually exclusive"@)
            &&& !two && args.place ==> {
                &&& args.side is None ==> refused(
                    r,
                    "--side"@ + " must be 'bid' or 'ask', got "@ + "None"@,
                )
                &&& args.side is Some && !sided ==> refused(
                    r,
                    "--side"@ + " must be 'bid' or 'ask', got "@ + ("Some("@ + text::quoted_text(
                        args.side->Some_0@,
                    ) + ")"@),
                )
                &&& sided && args.price is None ==> refused(r, "--price required"@)
                &&& sided && args.price is Some && args.size is None ==> refused(
                    r,
                    "--size required"@,
                )
            }
            &&& !two && args.matching ==> {
                &&& args.taker_side is None ==> refused(
                    r,
                    "--taker-side"@ + " must be 'bid' or 'ask', got "@ + "None"@,
                )
                &&& args.taker_side is Some && !taking ==> refused(
                    r,
                    "--taker-side"@ + " must be 'bid' or 'ask', got "@ + ("Some("@
                        + text::quoted_text(args.taker_side->Some_0@) + ")"@),
                )
                &&& taking && args.price is None ==> refused(r, "--price required"@)
                &&& taking && args.price is Some && args.size is None ==> refused(
                    r,
                    "--size required"@,
                )
                &&& taking && args.price is Some && args.size is Some && args.max_fills is None
                    ==> refused(r, "--max-fills required"@)
            }
        }),
{
    let flags = seq![args.create, args.place, args.matching];
    sent::two_modes_are_too_many(flags);
    assert(flags[0] == args.create && flags[1] == args.place && flags[2] == args.matching);
}

/// What `oracle` and `funding` refuse, and with which words.
pub proof fn price_and_rate_complaints_say_what_is_wrong(
    oracle_args: OracleArgs,
    funding_args: FundingArgs,
    program: Seq<u8>,
    payer: Seq<u8>,
    market: Seq<u8>,
    account: Seq<u8>,
)
    ensures
        ({
            let r = oracle::oracle_request(oracle_args, program, payer, market, account);
            &&& oracle_args.init && oracle_args.set ==> refused(
                r,
                "--init and --set are mutually exclusive"@,
            )
            &&& !oracle_args.init && oracle_args.set && oracle_args.price is None ==> refused(
                r,
                "--price required"@,
            )
        }),
        ({
            let r = funding::funding_request(funding_args, program, payer, market, account);
            &&& funding_args.init && funding_args.update ==> refused(
                r,
                "--init and --update are mutually exclusive"@,
            )
            &&& !funding_args.init && funding_args.update && funding_args.rate is None ==> refused(
                r,
                "--rate required"@,
            )
        }),
{
}

/// What `position` refuses, and with which words.
pub proof fn position_complaints_say_what_is_wrong(args: PositionArgs, k: PositionKeys, payer: Seq<u8>)
    ensures
        ({
            let r = position::position_request(args, k);
            let two = sent::two_are_set(
                seq![
                    args.open,
                    args.close,
                    args.liquidate,
                    args.create_insurance_fund,
                    args.deposit_insurance,
                ],
            );
            &&& two ==> refused(r, "mutating modes are mutually exclusive"@)
            &&& !two && args.open ==> {
                &&& args.size is None ==> refused(r, "--size required"@)
                &&& args.size is Some && args.collateral is None ==> refused(
                    r,
                    "--collateral required"@,
                )
                &&& args.size is Some && args.collateral is Some && args.user_token_account is None
                    ==> refused(r, "--user-token-account required for --open"@)
                &&& args.size is Some && args.collateral is Some && args.user_token_account is Some
                    ==> unreadable(
                    r,
                    args.user_token_account->Some_0@,
                    "parse --user-token-account"@,
                )
            }
            &&& !two && args.close ==> {
                &&& args.user_token_account is None ==> refused(
                    r,
                    "--user-token-account required for --close"@,
                )
                &&& args.user_token_account is Some ==> unreadable(
                    r,
                    args.user_token_account->Some_0@,
                    "parse --user-token-account"@,
                )
            }
            &&& !two && args.liquidate ==> {
                &&& args.owner_token_account is None ==> refused(
                    r,
                    "--owner-token-account required"@,
                )
                &&& args.owner_token_account is Some ==> unreadable(
                    r,
                    args.owner_token_account->Some_0@,
                    "parse --owner-token-account"@,
                )
                &&& args.owner_token_account is Some && keys::parsed_key(
                    args.owner_token_account->Some_0@,
                ) is Ok ==> {
                    &&& args.liquidator_token_account is None ==> refused(
                        r,
                        "--liquidator-token-account required"@,
                    )
                    &&& args.liquidator_token_account is Some ==> unreadable(
                        r,
                        args.liquidator_token_account->Some_0@,
                        "parse --liquidator-token-account"@,
                    )
                }
            }
            &&& !two && args.deposit_insurance ==> {
                &&& args.amount is None ==> refused(r, "--amount required"@)
                &&& args.amount is Some && args.user_token_account is None ==> refused(
                    r,
                    "--user-token-account required for --deposit-insurance"@,
                )
                &&& args.amount is Some && args.user_token_account is Some ==> unreadable(
                    r,
                    args.user_token_account->Some_0@,
                    "parse --user-token-account"@,
                )
            }
        }),
        args.liquidate && args.target_user is None ==> position::position_user(args, payer)
            == Err::<Seq<u8>, ErrorView>(
            ErrorView::Usage { message: "--target-user required with --liquidate"@ },
        ),
{
    let flags = seq![
        args.open,
        args.close,
        args.liquidate,
        args.create_insurance_fund,
        args.deposit_insurance,
    ];
    sent::two_modes_are_too_many(flags);
    assert(flags[0] == args.open && flags[1] == args.close && flags[2] == args.liquidate && flags[3]
        == args.create_insurance_fund && flags[4] == args.deposit_insurance);
}

/// What `vault` and `builder` refuse, and with which words.
pub proof fn vault_and_builder_complaints_say_what_is_wrong(
    args: VaultArgs,
    k: VaultKeys,
    plans: BuilderArgs,
)
    ensures
        ({
            let r = trading_vault::vault_request(args, k);
            let two = sent::two_are_set(
                seq![args.init, args.deposit, args.withdraw, args.update_nav],
            );
            &&& two ==> refused(
                r,
                "--init, --deposit, --withdraw, --update-nav are mutually exclusive"@,
            )
            &&& !two && args.init && args.mint is Some ==> unreadable(
                r,
                args.mint->Some_0@,
                "parse --mint"@,
            )
        }),
        ({
            let r = builder::builder_plan(plans);
            let two = sent::two_are_set(
                seq![plans.create_fee_vault, plans.register, plans.place_with_builder, plans.claim],
            );
            &&& two ==> complains(
                r,
                "--create-fee-vault, --register, --place-with-builder, --claim are mutually exclusive"@,
            )
            &&& !two && (plans.create_fee_vault || plans.claim) && plans.mint is None ==> complains(
                r,
                "--mint required for this mode"@,
            )
            &&& !two && plans.claim && plans.mint is Some && keys::parsed_key(
                plans.mint->Some_0@,
            ) is Ok && plans.builder_token_account is None ==> complains(
                r,
                "--builder-token-account required for --claim"@,
            )
        }),
{
    sent::two_modes_are_too_many(seq![args.init, args.deposit, args.withdraw, args.update_nav]);
    let flags = seq![
        plans.create_fee_vault,
        plans.register,
        plans.place_with_builder,
        plans.claim,
    ];
    sent::two_modes_are_too_many(flags);
    assert(flags[0] == plans.create_fee_vault && flags[1] == plans.register && flags[2]
        == plans.place_with_builder && flags[3] == plans.claim);
}

} // verus!
