//! What all commands share.

use vstd::prelude::*;
use vstd::string::StringExecFns;

use crate::client::keys;
use crate::client::keys::ClientError;
use crate::program::address;
use crate::program::types;
use crate::program::types::{AccountMeta, Instruction};
use crate::split;
use crate::state::side;
use crate::text;

verus! {

/// `path` with a leading `~/` replaced by the home directory, if it is known.
pub open spec fn expanded(path: Seq<char>, home: Option<Seq<char>>) -> Seq<char> {
    match home {
        Some(h) => if split::starts_with(path, "~/"@) {
            h + "/"@ + path.skip(2)
        } else {
            path
        },
        None => path,
    }
}

/// Replaces a leading `~/` by the home directory, if it is known.
pub fn expand_tilde(path: &str, home: Option<&str>) -> (r: String)
    ensures
        r@ == expanded(path@, keys::opt_text(home)),
{
    proof {
        reveal_strlit("~/");
    }
    match home {
        Some(h) => {
            if split::begins_with(path, "~/") {
                let chars: Vec<char> = text::chars_of(path);
                let rest: String = text::text_of(&chars, 2, chars.len());
                assert(rest@ =~= path@.skip(2));
                let mut r: String = h.to_owned();
                r.append("/");
                r.append(rest.as_str());
                r
            } else {
                path.to_owned()
            }
        },
        None => path.to_owned(),
    }
}

/// The mathematical value of account data that may be missing.
pub open spec fn opt_data(data: Option<&[u8]>) -> Option<Seq<u8>> {
    match data {
        Some(d) => Some(d@),
        None => None,
    }
}

/// How an account is passed, in words.
pub open spec fn mode_text(is_writable: bool, is_signer: bool) -> Seq<char> {
    if is_writable {
        if is_signer {
            "WRITE + SIGNER"@
        } else {
            "WRITE"@
        }
    } else {
        if is_signer {
            "SIGNER"@
        } else {
            "READ"@
        }
    }
}

/// The first `n` accounts of an instruction, one line each.
pub open spec fn meta_lines(metas: Seq<types::MetaView>, n: nat) -> Seq<char>
    decreases n,
{
    if n == 0 {
        seq![]
    } else {
        let m = metas[n - 1];
        meta_lines(metas, (n - 1) as nat) + "  ["@ + text::decimal((n - 1) as nat) + "] "@
            + address::key_text(m.pubkey) + " "@ + mode_text(m.is_writable, m.is_signer) + "\n"@
    }
}

/// The accounts that an instruction declares.
pub open spec fn declared_text(metas: Seq<types::MetaView>) -> Seq<char> {
    "AccountMeta declared:\n"@ + meta_lines(metas, metas.len())
}

/// The accounts that an instruction declares, as text.
pub fn declared_accounts(ix: &Instruction) -> (r: String)
    ensures
        r@ == declared_text(ix@.accounts),
{
    let ghost all = types::metas(ix.accounts@);
    let mut lines: String = String::new();
    let mut i: usize = 0;
    while i < ix.accounts.len()
        invariant
            i <= ix.accounts@.len(),
            all == types::metas(ix.accounts@),
            lines@ == meta_lines(all, i as nat),
        decreases ix.accounts@.len() - i,
    {
        let m: &AccountMeta = &ix.accounts[i];
        lines.append("  [");
        lines.append(text::decimal_text(i as u128).as_str());
        lines.append("] ");
        lines.append(address::show_key(&m.pubkey).as_str());
        lines.append(" ");
        lines.append(mode_of(m.is_writable, m.is_signer).as_str());
        lines.append("\n");
        i += 1;
    }
    let mut r: String = "AccountMeta declared:\n".to_owned();
    r.append(lines.as_str());
    r
}

fn mode_of(is_writable: bool, is_signer: bool) -> (r: String)
    ensures
        r@ == mode_text(is_writable, is_signer),
{
    if is_writable {
        if is_signer {
            "WRITE + SIGNER".to_owned()
        } else {
            "WRITE".to_owned()
        }
    } else {
        if is_signer {
            "SIGNER".to_owned()
        } else {
            "READ".to_owned()
        }
    }
}

/// An optional text, quoted, as `{:?}` writes it. `quote` is its quoted form.
pub open spec fn debug_option(text: Option<Seq<char>>, quote: Seq<char>) -> Seq<char> {
    match text {
        Some(_) => "Some("@ + quote + ")"@,
        None => "None"@,
    }
}

/// The byte of a side, if `text` names one.
pub open spec fn side_named(text: Option<Seq<char>>) -> Option<u8> {
    match text {
        Some(t) => if t == "bid"@ {
            Some(side::BID)
        } else if t == "ask"@ {
            Some(side::ASK)
        } else {
            None
        },
        None => None,
    }
}

/// The byte of a side, if `text` names one.
pub fn side_byte(text: Option<&str>) -> (r: Option<u8>)
    ensures
        r == side_named(keys::opt_text(text)),
{
    match text {
        Some(t) => {
            if text::same_text(t, "bid") {
                Some(side::BID)
            } else if text::same_text(t, "ask") {
                Some(side::ASK)
            } else {
                None
            }
        },
        None => None,
    }
}

/// The quoted form of an optional text, if there is one.
pub open spec fn quote_of(text: Option<Seq<char>>) -> Seq<char> {
    match text {
        Some(t) => text::quoted_text(t),
        None => seq![],
    }
}

/// The complaint about a side that is neither.
pub open spec fn bad_side(option: Seq<char>, text: Option<Seq<char>>) -> keys::ErrorView {
    keys::usage(
        option + " must be 'bid' or 'ask', got "@ + debug_option(text, quote_of(text)),
    )
}

/// The complaint about a side that is neither.
pub fn side_error(option: &str, text: Option<&str>) -> (r: ClientError)
    ensures
        r@ == bad_side(option@, keys::opt_text(text)),
{
    let mut message: String = option.to_owned();
    message.append(" must be 'bid' or 'ask', got ");
    let shown: String = match text {
        Some(t) => {
            let mut shown: String = "Some(".to_owned();
            shown.append(text::quoted(t).as_str());
            shown.append(")");
            shown
        },
        None => "None".to_owned(),
    };
    message.append(shown.as_str());
    ClientError::Usage { message }
}

/// The complaint about a side names the option and quotes what was given for it,
/// or says that nothing was.
pub proof fn wrong_sides_are_quoted(option: Seq<char>, t: Seq<char>)
    ensures
        bad_side(option, Some(t)) == (keys::ErrorView::Usage {
            message: option + " must be 'bid' or 'ask', got "@ + ("Some("@ + text::quoted_text(t)
                + ")"@),
        }),
        bad_side(option, None) == (keys::ErrorView::Usage {
            message: option + " must be 'bid' or 'ask', got "@ + "None"@,
        }),
{
}

/// The accounts are declared below a title.
pub proof fn declarations_have_a_title(metas: Seq<types::MetaView>)
    ensures
        declared_text(metas) == "AccountMeta declared:\n"@ + meta_lines(metas, metas.len()),
{
}

/// How many of the flags are set.
pub open spec fn set_count(flags: Seq<bool>) -> nat
    decreases flags.len(),
{
    if flags.len() == 0 {
        0
    } else {
        set_count(flags.drop_last()) + if flags.last() {
            1nat
        } else {
            0nat
        }
    }
}

/// Whether more than one of the flags is set.
pub fn more_than_one(flags: &[bool]) -> (r: bool)
    ensures
        r == (set_count(flags@) > 1),
{
    let mut count: usize = 0;
    let mut i: usize = 0;
    assert(flags@.take(0) =~= seq![]);
    while i < flags.len()
        invariant
            count <= i <= flags@.len(),
            count == set_count(flags@.take(i as int)),
        decreases flags@.len() - i,
    {
        assert(flags@.take(i + 1).drop_last() =~= flags@.take(i as int));
        if flags[i] {
            count += 1;
        }
        i += 1;
    }
    assert(flags@.take(i as int) =~= flags@);
    count > 1
}

/// An instruction for `program` with these accounts and this data.
pub fn instruction(program: &[u8; 32], accounts: Vec<AccountMeta>, data: Vec<u8>) -> (r: Instruction)
    ensures
        r@ == (types::InstructionView {
            program_id: program@,
            accounts: types::metas(accounts@),
            data: data@,
        }),
{
    Instruction { program_id: *program, accounts, data }
}

/// A limit on compute units, in words.
pub open spec fn limit_text(limit: Option<u32>) -> Seq<char> {
    match limit {
        Some(n) => text::decimal(n as nat),
        None => "default (200k)"@,
    }
}

/// A limit on compute units, in words.
pub fn limit_words(limit: Option<u32>) -> (r: String)
    ensures
        r@ == limit_text(limit),
{
    match limit {
        Some(n) => text::decimal_text(n as u128),
        None => "default (200k)".to_owned(),
    }
}

/// The slots that passed since `then`; none if `then` is not over yet.
pub open spec fn slots_since(now: u64, then: u64) -> nat {
    if now >= then {
        (now - then) as nat
    } else {
        0
    }
}

/// The slots that passed since `then`; none if `then` is not over yet.
pub fn age_in_slots(now: u64, then: u64) -> (r: u64)
    ensures
        r == slots_since(now, then),
{
    now.saturating_sub(then)
}

} // verus!
