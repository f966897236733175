//! Keys as text, and what can be wrong with a request.

use vstd::prelude::*;

use core::str::FromStr;

use solana_program::pubkey::{ParsePubkeyError, Pubkey};

use crate::program::types;
use crate::program::types::Instruction;

verus! {

/// Why a text is not a key.
#[derive(Clone, Copy, Debug, PartialEq, Eq, Structural)]
pub enum KeyError {
    /// It does not stand for 32 bytes.
    WrongSize,
    /// It is not base 58.
    Invalid,
}

impl KeyError {
    /// The reason in words.
    pub fn text(&self) -> (r: String)
        ensures
            r@ == match *self {
                KeyError::WrongSize => "String is the wrong size"@,
                KeyError::Invalid => "Invalid Base58 string"@,
            },
    {
        match self {
            KeyError::WrongSize => "String is the wrong size".to_owned(),
            KeyError::Invalid => "Invalid Base58 string".to_owned(),
        }
    }
}

/// The key that a text stands for.
pub uninterp spec fn parsed_key(text: Seq<char>) -> Result<Seq<u8>, KeyError>;

/// The mathematical value of a parsed key.
pub open spec fn key_result(r: Result<[u8; 32], KeyError>) -> Result<Seq<u8>, KeyError> {
    match r {
        Ok(key) => Ok(key@),
        Err(e) => Err(e),
    }
}

/// Calls `Pubkey::from_str`, which reads 32 bytes from base 58. Its two errors
/// are told apart.
#[verifier::external_body]
fn read_key(text: &str) -> (r: Result<[u8; 32], KeyError>)
    ensures
        key_result(r) == parsed_key(text@),
{
    match Pubkey::from_str(text) {
        Ok(key) => Ok(key.to_bytes()),
        Err(ParsePubkeyError::WrongSize) => Err(KeyError::WrongSize),
        Err(ParsePubkeyError::Invalid) => Err(KeyError::Invalid),
    }
}

/// What is wrong with a request.
#[derive(Debug, Clone)]
pub enum ClientError {
    /// A text that should be a key is none; `context` says which.
    BadKey { context: String, why: KeyError },
    /// The options do not make sense together.
    Usage { message: String },
}

/// The mathematical value of a `ClientError`.
pub enum ErrorView {
    BadKey { context: Seq<char>, why: KeyError },
    Usage { message: Seq<char> },
}

impl View for ClientError {
    type V = ErrorView;

    open spec fn view(&self) -> ErrorView {
        match *self {
            ClientError::BadKey { context, why } => ErrorView::BadKey { context: context@, why },
            ClientError::Usage { message } => ErrorView::Usage { message: message@ },
        }
    }
}

/// A request for a key: the key, or what is wrong.
pub type KeyRequest = Result<Seq<u8>, ErrorView>;

/// The mathematical value of a requested key.
pub open spec fn key_request(r: Result<[u8; 32], ClientError>) -> KeyRequest {
    match r {
        Ok(key) => Ok(key@),
        Err(e) => Err(e@),
    }
}

/// A request for an instruction, which may not call for one.
pub type Request = Result<Option<types::InstructionView>, ErrorView>;

/// The mathematical value of a requested instruction.
pub open spec fn request(r: Result<Option<Instruction>, ClientError>) -> Request {
    match r {
        Ok(Some(ix)) => Ok(Some(ix@)),
        Ok(None) => Ok(None),
        Err(e) => Err(e@),
    }
}

/// The key that `text` stands for; an error says `context`.
pub open spec fn key_named(text: Seq<char>, context: Seq<char>) -> KeyRequest {
    match parsed_key(text) {
        Ok(key) => Ok(key),
        Err(why) => Err(ErrorView::BadKey { context, why }),
    }
}

/// A usage error.
pub open spec fn usage(message: Seq<char>) -> ErrorView {
    ErrorView::Usage { message }
}

/// A usage error.
pub fn usage_error(message: &str) -> (r: ClientError)
    ensures
        r@ == usage(message@),
{
    ClientError::Usage { message: message.to_owned() }
}

/// The key that `text` stands for; an error says `context`.
pub fn parse_key(text: &str, context: &str) -> (r: Result<[u8; 32], ClientError>)
    ensures
        key_request(r) == key_named(text@, context@),
{
    match read_key(text) {
        Ok(key) => Ok(key),
        Err(why) => Err(ClientError::BadKey { context: context.to_owned(), why }),
    }
}

/// The key that an optional text stands for; the key of zeros without one.
pub open spec fn key_or_default(text: Option<Seq<char>>) -> KeyRequest {
    match text {
        Some(t) => key_named(t, "parse pubkey"@),
        None => Ok(types::zeros(32)),
    }
}

/// The mathematical value of an optional text.
pub open spec fn opt_text(text: Option<&str>) -> Option<Seq<char>> {
    match text {
        Some(t) => Some(t@),
        None => None,
    }
}

/// The mathematical value of an optional string.
pub open spec fn opt_string(text: Option<String>) -> Option<Seq<char>> {
    match text {
        Some(t) => Some(t@),
        None => None,
    }
}

/// An optional string, borrowed.
pub fn borrowed(text: &Option<String>) -> (r: Option<&str>)
    ensures
        opt_text(r) == opt_string(*text),
{
    match text {
        Some(t) => Some(t.as_str()),
        None => None,
    }
}

/// The key that an optional text stands for; the key of zeros without one.
pub fn parse_pubkey_or_default(text: Option<&str>) -> (r: Result<[u8; 32], ClientError>)
    ensures
        key_request(r) == key_or_default(opt_text(text)),
{
    match text {
        Some(t) => parse_key(t, "parse pubkey"),
        None => {
            let zero: [u8; 32] = [0u8; 32];
            assert(zero@ =~= types::zeros(32));
            Ok(zero)
        },
    }
}

/// The key that an optional text stands for; `default` without one.
pub open spec fn key_or(text: Option<Seq<char>>, context: Seq<char>, default: Seq<u8>) -> KeyRequest {
    match text {
        Some(t) => key_named(t, context),
        None => Ok(default),
    }
}

/// The key that an optional text stands for; `default` without one.
pub fn parse_key_or(text: Option<&str>, context: &str, default: &[u8; 32]) -> (r: Result<
    [u8; 32],
    ClientError,
>)
    ensures
        key_request(r) == key_or(opt_text(text), context@, default@),
{
    match text {
        Some(t) => parse_key(t, context),
        None => Ok(*default),
    }
}

/// The key that a text has to stand for; without one, the error `missing`.
pub open spec fn key_required(
    text: Option<Seq<char>>,
    missing: Seq<char>,
    context: Seq<char>,
) -> KeyRequest {
    match text {
        Some(t) => key_named(t, context),
        None => Err(usage(missing)),
    }
}

/// The key that a text has to stand for; without one, the error `missing`.
pub fn require_key(text: Option<&str>, missing: &str, context: &str) -> (r: Result<
    [u8; 32],
    ClientError,
>)
    ensures
        key_request(r) == key_required(opt_text(text), missing@, context@),
{
    match text {
        Some(t) => parse_key(t, context),
        None => Err(usage_error(missing)),
    }
}

/// The mint that a request names.
pub fn require_mint(mint: Option<&str>) -> (r: Result<[u8; 32], ClientError>)
    ensures
        key_request(r) == key_required(
            opt_text(mint),
            "--mint required for this mode"@,
            "parse --mint"@,
        ),
{
    require_key(mint, "--mint required for this mode", "parse --mint")
}

} // verus!
