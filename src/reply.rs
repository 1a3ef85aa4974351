//! What the gateway answers: the outcome of the one call, or the reason a
//! request was turned away.
use vstd::prelude::*;

use crate::call::RequestError;
use crate::uint::Uint256;

verus! {

pub const STATUS_OK: u16 = 200;

pub const STATUS_BAD_REQUEST: u16 = 400;

pub const STATUS_SERVER_ERROR: u16 = 500;

/// A reply to one request.
#[derive(Debug)]
pub enum Reply {
    /// A transaction was submitted; the message is sent as a JSON string.
    Submitted { message: String },
    /// The balance that was read; sent as a JSON quantity.
    Balance { value: Uint256 },
    /// The request was turned away before any call; plain text.
    Rejected { message: String },
    /// The call failed; plain text.
    Failed { message: String },
}

/// A reply as plain values.
pub enum ReplyModel {
    Submitted { message: Seq<char> },
    Balance { value: nat },
    Rejected { message: Seq<char> },
    Failed { message: Seq<char> },
}

impl ReplyModel {
    pub open spec fn status(self) -> u16 {
        match self {
            ReplyModel::Submitted { .. } => STATUS_OK,
            ReplyModel::Balance { .. } => STATUS_OK,
            ReplyModel::Rejected { .. } => STATUS_BAD_REQUEST,
            ReplyModel::Failed { .. } => STATUS_SERVER_ERROR,
        }
    }
}

impl View for Reply {
    type V = ReplyModel;

    open spec fn view(&self) -> ReplyModel {
        match self {
            Reply::Submitted { message } => ReplyModel::Submitted { message: message@ },
            Reply::Balance { value } => ReplyModel::Balance { value: value@ },
            Reply::Rejected { message } => ReplyModel::Rejected { message: message@ },
            Reply::Failed { message } => ReplyModel::Failed { message: message@ },
        }
    }
}

impl Reply {
    /// The HTTP status of the reply.
    pub fn status(&self) -> (r: u16)
        ensures
            r == self@.status(),
    {
        match self {
            Reply::Submitted { .. } => STATUS_OK,
            Reply::Balance { .. } => STATUS_OK,
            Reply::Rejected { .. } => STATUS_BAD_REQUEST,
            Reply::Failed { .. } => STATUS_SERVER_ERROR,
        }
    }
}

/// The lower-case hex digit of `d`, for `d < 16`.
pub open spec fn hex_char(d: int) -> char {
    seq!['0', '1', '2', '3', '4', '5', '6', '7', '8', '9', 'a', 'b', 'c', 'd', 'e', 'f'][d]
}

/// Two lower-case hex digits for each byte, most significant digit first.
pub open spec fn hex_text(b: Seq<u8>) -> Seq<char>
    decreases b.len(),
{
    if b.len() == 0 {
        seq![]
    } else {
        seq![hex_char(b[0] as int / 16), hex_char(b[0] as int % 16)] + hex_text(b.skip(1))
    }
}

/// Relies on `Debug` of ethers' `H256` (fixed-hash), which writes `0x` and
/// then every byte as two lower-case hex digits.
#[verifier::external_body]
fn debug_h256(hash: &[u8; 32]) -> (r: String)
    ensures
        r@ == seq!['0', 'x'] + hex_text(hash@),
{
    format!("{:?}", ethers::types::H256(*hash))
}

pub open spec fn submitted_text(hash: Seq<u8>) -> Seq<char> {
    "Transaction hash: "@ + (seq!['0', 'x'] + hex_text(hash))
}

pub open spec fn failure_text(detail: Seq<char>) -> Seq<char> {
    "Error: "@ + detail
}

pub open spec fn rejection_text(e: RequestError) -> Seq<char> {
    match e {
        RequestError::InvalidAddress { .. } => "Error: invalid address"@,
        RequestError::PercentOutOfRange { .. } => "Error: percent out of range"@,
    }
}

/// The reply to a submission: its transaction hash, or the error's text.
pub open spec fn submission_reply_spec(outcome: Result<Seq<u8>, Seq<char>>) -> ReplyModel {
    match outcome {
        Ok(hash) => ReplyModel::Submitted { message: submitted_text(hash) },
        Err(detail) => ReplyModel::Failed { message: failure_text(detail) },
    }
}

/// The reply to a balance query: the balance itself, or the error's text.
pub open spec fn balance_reply_spec(outcome: Result<nat, Seq<char>>) -> ReplyModel {
    match outcome {
        Ok(value) => ReplyModel::Balance { value },
        Err(detail) => ReplyModel::Failed { message: failure_text(detail) },
    }
}

pub open spec fn rejection_reply_spec(e: RequestError) -> ReplyModel {
    ReplyModel::Rejected { message: rejection_text(e) }
}

/// Answers a submitted call: the transaction hash on success, the error's
/// text (as the remote client wrote it) on failure.
pub fn submission_reply(outcome: Result<[u8; 32], String>) -> (r: Reply)
    ensures
        r@ == submission_reply_spec(
            match outcome {
                Ok(h) => Ok(h@),
                Err(d) => Err(d@),
            },
        ),
{
    match outcome {
        Ok(hash) => {
            let mut message = String::from_str("Transaction hash: ");
            let hex = debug_h256(&hash);
            message.append(hex.as_str());
            Reply::Submitted { message }
        },
        Err(detail) => Reply::Failed { message: failure_message(&detail) },
    }
}

/// Answers a balance query.
pub fn balance_reply(outcome: Result<Uint256, String>) -> (r: Reply)
    ensures
        r@ == balance_reply_spec(
            match outcome {
                Ok(v) => Ok(v@),
                Err(d) => Err(d@),
            },
        ),
{
    match outcome {
        Ok(value) => Reply::Balance { value },
        Err(detail) => Reply::Failed { message: failure_message(&detail) },
    }
}

/// Answers a request that was turned away.
pub fn rejection_reply(e: RequestError) -> (r: Reply)
    ensures
        r@ == rejection_reply_spec(e),
{
    let message = match e {
        RequestError::InvalidAddress { .. } => String::from_str("Error: invalid address"),
        RequestError::PercentOutOfRange { .. } => String::from_str("Error: percent out of range"),
    };
    Reply::Rejected { message }
}

fn failure_message(detail: &String) -> (r: String)
    ensures
        r@ == failure_text(detail@),
{
    let mut message = String::from_str("Error: ");
    message.append(detail.as_str());
    message
}

} // verus!
