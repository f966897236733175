//! The command for pooled trading vaults.

use vstd::prelude::*;
use vstd::string::StringExecFns;

use crate::bytes;
use crate::client::book;
use crate::client::common;
use crate::client::keys;
use crate::client::keys::ClientError;
use crate::client::tags;
use crate::program::address;
use crate::program::types;
use crate::program::types::{AccountMeta, Instruction};
use crate::state::{TradingVault, VaultShare};
use crate::text;

verus! {

/// The options of `vault` that say what to do.
#[derive(Debug, Clone)]
pub struct VaultArgs {
    pub init: bool,
    pub mint: Option<String>,
    pub deposit: bool,
    pub amount: Option<u64>,
    pub withdraw: bool,
    pub shares: Option<u64>,
    pub update_nav: bool,
    pub total_assets: Option<u64>,
}

/// The option that goes with the chosen mode is there.
pub open spec fn complete(args: VaultArgs) -> bool {
    &&& args.init ==> args.mint is Some
    &&& args.deposit ==> args.amount is Some
    &&& args.withdraw ==> args.shares is Some
    &&& args.update_nav ==> args.total_assets is Some
}

/// More than one mode is chosen.
pub open spec fn conflicting(args: VaultArgs) -> bool {
    common::set_count(seq![args.init, args.deposit, args.withdraw, args.update_nav]) > 1
}

/// Whether the options can be acted on, if only by a complaint.
pub fn is_complete(args: &VaultArgs) -> (r: bool)
    ensures
        r == (conflicting(*args) || complete(*args)),
{
    let flags: [bool; 4] = [args.init, args.deposit, args.withdraw, args.update_nav];
    assert(flags@ =~= seq![args.init, args.deposit, args.withdraw, args.update_nav]);
    common::more_than_one(&flags) || ((!args.init || args.mint.is_some()) && (!args.deposit
        || args.amount.is_some()) && (!args.withdraw || args.shares.is_some()) && (!args.update_nav
        || args.total_assets.is_some()))
}

/// The addresses that the instructions on trading vaults use.
#[derive(Debug, Clone, Copy)]
pub struct VaultKeys {
    pub program: [u8; 32],
    pub payer: [u8; 32],
    pub market: [u8; 32],
    pub manager: [u8; 32],
    pub vault: [u8; 32],
    pub share: [u8; 32],
}

/// The accounts of `CreateTradingVault`.
pub open spec fn create_accounts(
    payer: Seq<u8>,
    market: Seq<u8>,
    manager: Seq<u8>,
    mint: Seq<u8>,
    vault: Seq<u8>,
) -> Seq<types::MetaView> {
    seq![
        types::writable(payer, true),
        types::readonly(market, false),
        types::readonly(manager, true),
        types::readonly(mint, false),
        types::writable(vault, false),
        types::readonly(address::SYSTEM_PROGRAM_ID@, false),
    ]
}

fn create_accounts_metas(
    payer: &[u8; 32],
    market: &[u8; 32],
    manager: &[u8; 32],
    mint: &[u8; 32],
    vault: &[u8; 32],
) -> (r: Vec<AccountMeta>)
    ensures
        types::metas(r@) == create_accounts(
            payer@,
            market@,
            manager@,
            mint@,
            vault@,
        ),
{
    let r: Vec<AccountMeta> = vec![
        AccountMeta::new(*payer, true),
        AccountMeta::new_readonly(*market, false),
        AccountMeta::new_readonly(*manager, true),
        AccountMeta::new_readonly(*mint, false),
        AccountMeta::new(*vault, false),
        AccountMeta::new_readonly(address::SYSTEM_PROGRAM_ID, false),
    ];
    assert(types::metas(r@) =~= create_accounts(
        payer@,
        market@,
        manager@,
        mint@,
        vault@,
    ));
    r
}

/// The accounts of `VaultDeposit`.
pub open spec fn deposit_accounts(
    payer: Seq<u8>,
    vault: Seq<u8>,
    share: Seq<u8>,
) -> Seq<types::MetaView> {
    seq![
        types::writable(payer, true),
        types::writable(vault, false),
        types::writable(share, false),
        types::readonly(address::SYSTEM_PROGRAM_ID@, false),
    ]
}

fn deposit_accounts_metas(
    payer: &[u8; 32],
    vault: &[u8; 32],
    share: &[u8; 32],
) -> (r: Vec<AccountMeta>)
    ensures
        types::metas(r@) == deposit_accounts(
            payer@,
            vault@,
            share@,
        ),
{
    let r: Vec<AccountMeta> = vec![
        AccountMeta::new(*payer, true),
        AccountMeta::new(*vault, false),
        AccountMeta::new(*share, false),
        AccountMeta::new_readonly(address::SYSTEM_PROGRAM_ID, false),
    ];
    assert(types::metas(r@) =~= deposit_accounts(
        payer@,
        vault@,
        share@,
    ));
    r
}

/// The accounts of `VaultWithdraw`.
pub open spec fn withdraw_accounts(
    payer: Seq<u8>,
    vault: Seq<u8>,
    share: Seq<u8>,
) -> Seq<types::MetaView> {
    seq![
        types::readonly(payer, true),
        types::writable(vault, false),
        types::writable(share, false),
    ]
}

fn withdraw_accounts_metas(
    payer: &[u8; 32],
    vault: &[u8; 32],
    share: &[u8; 32],
) -> (r: Vec<AccountMeta>)
    ensures
        types::metas(r@) == withdraw_accounts(
            payer@,
            vault@,
            share@,
        ),
{
    let r: Vec<AccountMeta> = vec![
        AccountMeta::new_readonly(*payer, true),
        AccountMeta::new(*vault, false),
        AccountMeta::new(*share, false),
    ];
    assert(types::metas(r@) =~= withdraw_accounts(
        payer@,
        vault@,
        share@,
    ));
    r
}

/// What `vault` asks of the program.
pub open spec fn vault_request(args: VaultArgs, k: VaultKeys) -> keys::Request {
    if conflicting(args) {
        Err(
            keys::usage(
                "--init, --deposit, --withdraw, --update-nav are mutually exclusive"@,
            ),
        )
    } else if args.init {
        match keys::key_named(args.mint->Some_0@, "parse --mint"@) {
            Err(e) => Err(e),
            Ok(mint) => Ok(
                Some(
                    types::InstructionView {
                        program_id: k.program@,
                        accounts: create_accounts(
                            k.payer@,
                            k.market@,
                            k.manager@,
                            mint,
                            k.vault@,
                        ),
                        data: seq![tags::CREATE_TRADING_VAULT],
                    },
                ),
            ),
        }
    } else if args.deposit {
        Ok(
            Some(
                types::InstructionView {
                    program_id: k.program@,
                    accounts: deposit_accounts(k.payer@, k.vault@, k.share@),
                    data: book::amount_data(tags::VAULT_DEPOSIT, args.amount->Some_0 as nat),
                },
            ),
        )
    } else if args.withdraw {
        Ok(
            Some(
                types::InstructionView {
                    program_id: k.program@,
                    accounts: withdraw_accounts(k.payer@, k.vault@, k.share@),
                    data: book::amount_data(tags::VAULT_WITHDRAW, args.shares->Some_0 as nat),
                },
            ),
        )
    } else if args.update_nav {
        Ok(
            Some(
                types::InstructionView {
                    program_id: k.program@,
                    accounts: book::signer_and_account(k.payer@, k.vault@),
                    data: book::amount_data(
                        tags::VAULT_UPDATE_NAV,
                        args.total_assets->Some_0 as nat,
                    ),
                },
            ),
        )
    } else {
        Ok(None)
    }
}

/// What `vault` asks of the program; nothing if it only shows a vault. The
/// option that goes with the chosen mode has to be there.
pub fn vault_instruction(args: &VaultArgs, k: &VaultKeys) -> (r: Result<
    Option<Instruction>,
    ClientError,
>)
    requires
        conflicting(*args) || complete(*args),
    ensures
        keys::request(r) == vault_request(*args, *k),
{
    let flags: [bool; 4] = [args.init, args.deposit, args.withdraw, args.update_nav];
    assert(flags@ =~= seq![args.init, args.deposit, args.withdraw, args.update_nav]);
    if common::more_than_one(&flags) {
        return Err(
            keys::usage_error("--init, --deposit, --withdraw, --update-nav are mutually exclusive"),
        );
    }
    if args.init {
        let mint: [u8; 32] = match &args.mint {
            Some(t) => match keys::parse_key(t.as_str(), "parse --mint") {
                Ok(key) => key,
                Err(e) => return Err(e),
            },
            None => vstd::pervasive::unreached(),
        };
        let data: Vec<u8> = vec![tags::CREATE_TRADING_VAULT];
        assert(data@ =~= seq![tags::CREATE_TRADING_VAULT]);
        let accounts: Vec<AccountMeta> = create_accounts_metas(
            &k.payer,
            &k.market,
            &k.manager,
            &mint,
            &k.vault,
        );
        Ok(Some(common::instruction(&k.program, accounts, data)))
    } else if args.deposit {
        let amount: u64 = args.amount.unwrap();
        let data: Vec<u8> = book::amount_bytes(tags::VAULT_DEPOSIT, amount);
        let accounts: Vec<AccountMeta> = deposit_accounts_metas(&k.payer, &k.vault, &k.share);
        Ok(Some(common::instruction(&k.program, accounts, data)))
    } else if args.withdraw {
        let shares: u64 = args.shares.unwrap();
        let data: Vec<u8> = book::amount_bytes(tags::VAULT_WITHDRAW, shares);
        let accounts: Vec<AccountMeta> = withdraw_accounts_metas(&k.payer, &k.vault, &k.share);
        Ok(Some(common::instruction(&k.program, accounts, data)))
    } else if args.update_nav {
        let total: u64 = args.total_assets.unwrap();
        let data: Vec<u8> = book::amount_bytes(tags::VAULT_UPDATE_NAV, total);
        let accounts: Vec<AccountMeta> = book::signer_and_account_metas(&k.payer, &k.vault);
        Ok(Some(common::instruction(&k.program, accounts, data)))
    } else {
        Ok(None)
    }
}

/// The address of the trading vault of a manager in a market, and its bump.
pub fn trading_vault_address(program: &[u8; 32], market: &[u8; 32], manager: &[u8; 32]) -> (r:
    Option<([u8; 32], u8)>)
    ensures
        address::derived(r) == address::program_address(
            seq![address::TRADING_VAULT_SEED@, market@, manager@],
            program@,
        ),
{
    address::derive_with_keys(&address::TRADING_VAULT_SEED, market, manager, program)
}

/// The address of the share of an owner in a trading vault, and its bump.
pub fn share_address(program: &[u8; 32], vault: &[u8; 32], owner: &[u8; 32]) -> (r: Option<
    ([u8; 32], u8),
>)
    ensures
        address::derived(r) == address::program_address(
            seq![address::VAULT_SHARE_SEED@, vault@, owner@],
            program@,
        ),
{
    address::derive_with_keys(&address::VAULT_SHARE_SEED, vault, owner, program)
}

/// The addresses that the instructions on the vault of `manager` use; nothing
/// if one of them cannot be derived.
pub fn vault_keys(
    program: &[u8; 32],
    payer: &[u8; 32],
    market: &[u8; 32],
    manager: &[u8; 32],
) -> (r: Option<VaultKeys>)
    ensures
        match r {
            Some(k) => {
                &&& k.program == *program
                &&& k.payer == *payer
                &&& k.market == *market
                &&& k.manager == *manager
                &&& address::leads_to(
                    seq![address::TRADING_VAULT_SEED@, market@, manager@],
                    program@,
                    k.vault@,
                )
                &&& address::leads_to(
                    seq![address::VAULT_SHARE_SEED@, k.vault@, payer@],
                    program@,
                    k.share@,
                )
            },
            None => match address::program_address(
                seq![address::TRADING_VAULT_SEED@, market@, manager@],
                program@,
            ) {
                Some((vault, _)) => address::program_address(
                    seq![address::VAULT_SHARE_SEED@, vault, payer@],
                    program@,
                ) is None,
                None => true,
            },
        },
{
    let (vault, _) = trading_vault_address(program, market, manager)?;
    let (share, _) = share_address(program, &vault, payer)?;
    Some(
        VaultKeys {
            program: *program,
            payer: *payer,
            market: *market,
            manager: *manager,
            vault,
            share,
        },
    )
}

/// What ten thousand shares are worth; nothing is said of a vault without
/// shares.
pub open spec fn nav(total_assets: nat, total_shares: nat) -> Option<nat> {
    if total_shares > 0 {
        Some(total_assets * 10000 / total_shares)
    } else {
        None
    }
}

/// What ten thousand shares are worth.
pub fn nav_per_share(vault: &TradingVault) -> (r: Option<u128>)
    ensures
        match r {
            Some(n) => nav(vault.total_assets as nat, vault.total_shares as nat) == Some(n as nat),
            None => nav(vault.total_assets as nat, vault.total_shares as nat) is None,
        },
{
    if vault.total_shares > 0 {
        Some((vault.total_assets as u128) * 10000 / (vault.total_shares as u128))
    } else {
        None
    }
}

/// After a first deposit at one asset per share, ten thousand shares are worth
/// ten thousand assets.
pub proof fn nav_starts_at_par(amount: nat)
    requires
        amount > 0,
    ensures
        nav(amount, amount) == Some(10000nat),
{
    assert(amount * 10000 / amount == 10000) by (nonlinear_arith)
        requires
            amount > 0,
    ;
}

/// The worth of ten thousand shares is their part of the assets, rounded down,
/// above par as well as below; it is told exactly if there are shares.
pub proof fn nav_is_the_part_of_the_assets(total_assets: nat, total_shares: nat)
    ensures
        nav(total_assets, total_shares) is Some <==> total_shares > 0,
        nav(total_assets, total_shares) matches Some(n) ==> n * total_shares <= total_assets * 10000
            < (n + 1) * total_shares,
{
    if total_shares > 0 {
        let all = (total_assets * 10000) as int;
        let n = all / (total_shares as int);
        vstd::arithmetic::div_mod::lemma_fundamental_div_mod(all, total_shares as int);
        assert(n * total_shares <= all < (n + 1) * total_shares) by (nonlinear_arith)
            requires
                all == total_shares * n + all % (total_shares as int),
                0 <= all % (total_shares as int) < total_shares,
        ;
        assert(n >= 0) by (nonlinear_arith)
            requires
                all < (n + 1) * total_shares,
                all >= 0,
                total_shares > 0,
        ;
    }
}

/// A vault that has lost is below par, and one that has gained is not; more
/// assets never make a share worth less.
pub proof fn nav_follows_the_assets(total_assets: nat, more: nat, total_shares: nat)
    requires
        total_shares > 0,
        total_assets <= more,
    ensures
        nav(total_assets, total_shares)->Some_0 < 10000 <==> total_assets < total_shares,
        nav(total_assets, total_shares)->Some_0 <= nav(more, total_shares)->Some_0,
{
    nav_is_the_part_of_the_assets(total_assets, total_shares);
    nav_is_the_part_of_the_assets(more, total_shares);
    let a = nav(total_assets, total_shares)->Some_0;
    let b = nav(more, total_shares)->Some_0;
    if a < 10000 {
        assert((a + 1) * total_shares <= 10000 * total_shares) by (nonlinear_arith)
            requires
                a + 1 <= 10000,
        ;
    } else {
        assert(a * total_shares >= 10000 * total_shares) by (nonlinear_arith)
            requires
                a >= 10000,
        ;
    }
    if a > b {
        assert(a * total_shares >= (b + 1) * total_shares) by (nonlinear_arith)
            requires
                a >= b + 1,
        ;
    }
}

/// The worth of ten thousand shares is shown on the page of a vault that has
/// shares; on that of another, nothing follows the total assets.
pub proof fn nav_is_shown(vault: TradingVault)
    ensures
        vault.total_shares > 0 ==> exists|before: Seq<char>, n: nat|
            #![trigger before + text::decimal(n)]
            vault_text(vault) == before + ("  NAV per share:  "@ + text::decimal(n)
                + " (assets per 10000 shares)\n"@) && n * vault.total_shares <= vault.total_assets
                * 10000 < (n + 1) * vault.total_shares,
        vault.total_shares == 0 ==> exists|before: Seq<char>|
            vault_text(vault) == #[trigger] (before + ("\n  total_assets:   "@ + text::decimal(
                vault.total_assets as nat,
            ) + "\n"@)),
{
    nav_is_the_part_of_the_assets(vault.total_assets as nat, vault.total_shares as nat);
    let head = "  market:         "@ + address::key_text(vault.market@) + "\n  manager:        "@
        + address::key_text(vault.manager@) + "\n  mint:           "@ + address::key_text(vault.mint@)
        + "\n  total_shares:   "@ + text::decimal(vault.total_shares as nat);
    let assets = "\n  total_assets:   "@ + text::decimal(vault.total_assets as nat) + "\n"@;
    if vault.total_shares > 0 {
        let n = nav(vault.total_assets as nat, vault.total_shares as nat)->Some_0;
        let line = "  NAV per share:  "@ + text::decimal(n) + " (assets per 10000 shares)\n"@;
        let before = head + assets;
        assert(vault_text(vault) =~= before + line);
        assert(before + text::decimal(n) == before + text::decimal(n));
    } else {
        assert(vault_text(vault) =~= head + assets);
    }
}

/// The line on the worth of a share, if there are shares.
pub open spec fn nav_text(nav: Option<nat>) -> Seq<char> {
    match nav {
        Some(n) => "  NAV per share:  "@ + text::decimal(n) + " (assets per 10000 shares)\n"@,
        None => seq![],
    }
}

/// A trading vault, as it stands.
pub open spec fn vault_text(vault: TradingVault) -> Seq<char> {
    "  market:         "@ + address::key_text(vault.market@) + "\n  manager:        "@
        + address::key_text(vault.manager@) + "\n  mint:           "@ + address::key_text(vault.mint@)
        + "\n  total_shares:   "@ + text::decimal(vault.total_shares as nat)
        + "\n  total_assets:   "@ + text::decimal(vault.total_assets as nat) + "\n"@ + nav_text(
        nav(vault.total_assets as nat, vault.total_shares as nat),
    )
}

/// A trading vault, as it stands.
pub fn describe_vault(vault: &TradingVault) -> (r: String)
    ensures
        r@ == vault_text(*vault),
{
    let mut worth: String = String::new();
    if let Some(n) = nav_per_share(vault) {
        worth = "  NAV per share:  ".to_owned();
        worth.append(text::decimal_text(n).as_str());
        worth.append(" (assets per 10000 shares)\n");
    }
    let mut r: String = "  market:         ".to_owned();
    r.append(address::show_key(&vault.market).as_str());
    r.append("\n  manager:        ");
    r.append(address::show_key(&vault.manager).as_str());
    r.append("\n  mint:           ");
    r.append(address::show_key(&vault.mint).as_str());
    r.append("\n  total_shares:   ");
    r.append(text::decimal_text(vault.total_shares as u128).as_str());
    r.append("\n  total_assets:   ");
    r.append(text::decimal_text(vault.total_assets as u128).as_str());
    r.append("\n");
    r.append(worth.as_str());
    r
}

/// A share in a trading vault, as it stands.
pub open spec fn share_text(share: VaultShare) -> Seq<char> {
    "  owner:        "@ + address::key_text(share.owner@) + "\n  shares:       "@ + text::decimal(
        share.shares as nat,
    ) + "\n  cost_basis:   "@ + text::decimal(share.cost_basis as nat) + "\n"@
}

/// A share in a trading vault, as it stands.
pub fn describe_share(share: &VaultShare) -> (r: String)
    ensures
        r@ == share_text(*share),
{
    let mut r: String = "  owner:        ".to_owned();
    r.append(address::show_key(&share.owner).as_str());
    r.append("\n  shares:       ");
    r.append(text::decimal_text(share.shares as u128).as_str());
    r.append("\n  cost_basis:   ");
    r.append(text::decimal_text(share.cost_basis as u128).as_str());
    r.append("\n");
    r
}

/// `out` shows the vault that the data begins with, or says that there is none.
pub open spec fn shows_vault(data: Option<Seq<u8>>, out: Seq<char>) -> bool {
    match data {
        Some(d) if d.len() >= TradingVault::LEN => exists|v: TradingVault| #[trigger]
            v.laid_out(d.take(TradingVault::LEN as int)) && out == vault_text(v),
        _ => out == "  (vault does not exist yet)\n"@,
    }
}

/// Shows the vault in the data of its account, if there is one.
pub fn show_vault(data: Option<&[u8]>) -> (r: String)
    ensures
        shows_vault(common::opt_data(data), r@),
{
    let found: Option<&[u8]> = match data {
        Some(d) => bytes::prefix(d, TradingVault::LEN),
        None => None,
    };
    match found {
        Some(d) => match TradingVault::from_bytes(d) {
            Some(v) => describe_vault(&v),
            None => vstd::pervasive::unreached(),
        },
        None => "  (vault does not exist yet)\n".to_owned(),
    }
}

/// `out` shows the share that the data begins with, or says that there is none.
pub open spec fn shows_share(data: Option<Seq<u8>>, out: Seq<char>) -> bool {
    match data {
        Some(d) if d.len() >= VaultShare::LEN => exists|v: VaultShare| #[trigger]
            v.laid_out(d.take(VaultShare::LEN as int)) && out == share_text(v),
        _ => out == "  (no shares yet)\n"@,
    }
}

/// Shows the share in the data of its account, if there is one.
pub fn show_share(data: Option<&[u8]>) -> (r: String)
    ensures
        shows_share(common::opt_data(data), r@),
{
    let found: Option<&[u8]> = match data {
        Some(d) => bytes::prefix(d, VaultShare::LEN),
        None => None,
    };
    match found {
        Some(d) => match VaultShare::from_bytes(d) {
            Some(v) => describe_share(&v),
            None => vstd::pervasive::unreached(),
        },
        None => "  (no shares yet)\n".to_owned(),
    }
}

/// What `vault` prints before it sends anything.
pub open spec fn vault_header_text(
    rpc: Seq<char>,
    payer: Seq<u8>,
    program: Seq<u8>,
    market: Seq<u8>,
    manager: Seq<u8>,
    vault: Seq<u8>,
    bump: nat,
    share: Seq<u8>,
) -> Seq<char> {
    "rpc:        "@ + rpc + "\npayer:      "@ + address::key_text(payer) + "\nprogram:    "@
        + address::key_text(program) + "\nmarket:     "@ + address::key_text(market) + "\nmanager:    "@
        + address::key_text(manager) + "\nvault PDA:  "@ + address::key_text(vault) + "  (bump "@
        + text::decimal(bump) + ")\nshare PDA:  "@ + address::key_text(share) + "  (for payer="@
        + address::key_text(payer) + ")\n\n"@
}

/// What `vault` prints before it sends anything.
pub fn vault_header(
    rpc: &str,
    payer: &[u8; 32],
    program: &[u8; 32],
    market: &[u8; 32],
    manager: &[u8; 32],
    vault: &[u8; 32],
    bump: u8,
    share: &[u8; 32],
) -> (r: String)
    ensures
        r@ == vault_header_text(
            rpc@,
            payer@,
            program@,
            market@,
            manager@,
            vault@,
            bump as nat,
            share@,
        ),
{
    let mut r: String = "rpc:        ".to_owned();
    r.append(rpc);
    r.append("\npayer:      ");
    r.append(address::show_key(payer).as_str());
    r.append("\nprogram:    ");
    r.append(address::show_key(program).as_str());
    r.append("\nmarket:     ");
    r.append(address::show_key(market).as_str());
    r.append("\nmanager:    ");
    r.append(address::show_key(manager).as_str());
    r.append("\nvault PDA:  ");
    r.append(address::show_key(vault).as_str());
    r.append("  (bump ");
    r.append(text::decimal_text(bump as u128).as_str());
    r.append(")\nshare PDA:  ");
    r.append(address::show_key(share).as_str());
    r.append("  (for payer=");
    r.append(address::show_key(payer).as_str());
    r.append(")\n\n");
    r
}

/// The page of a vault is about the vault in its account; without one it says so.
pub proof fn vaults_are_shown_from_their_account(v: TradingVault, data: Seq<u8>, out: Seq<char>)
    ensures
        data.len() >= TradingVault::LEN && v.laid_out(data.take(TradingVault::LEN as int)) && shows_vault(
            Some(data),
            out,
        ) ==> out == vault_text(v),
        data.len() < TradingVault::LEN && shows_vault(Some(data), out) ==> out == "  (vault does not exist yet)\n"@,
        shows_vault(None, out) ==> out == "  (vault does not exist yet)\n"@,
{
    let b = data.take(TradingVault::LEN as int);
    assert forall|x: TradingVault| #[trigger] x.laid_out(b) && v.laid_out(b) implies x == v by {
        v.value_is_unique(x, b);
    }
}

/// The page of a share is about the share in its account; without one it says so.
pub proof fn shares_are_shown_from_their_account(v: VaultShare, data: Seq<u8>, out: Seq<char>)
    ensures
        data.len() >= VaultShare::LEN && v.laid_out(data.take(VaultShare::LEN as int)) && shows_share(
            Some(data),
            out,
        ) ==> out == share_text(v),
        data.len() < VaultShare::LEN && shows_share(Some(data), out) ==> out == "  (no shares yet)\n"@,
        shows_share(None, out) ==> out == "  (no shares yet)\n"@,
{
    let b = data.take(VaultShare::LEN as int);
    assert forall|x: VaultShare| #[trigger] x.laid_out(b) && v.laid_out(b) implies x == v by {
        v.value_is_unique(x, b);
    }
}

} // verus!
