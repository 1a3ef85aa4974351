//! Properties that hold across the gateway's checks and replies.
use vstd::prelude::*;

use crate::address::{address_bytes, is_address_text};
use crate::call::{
    all_addresses, balance_plan, collect_many_plan, collect_plan, disperse_all_plan,
    disperse_plan, first_invalid, lemma_first_invalid_unique, CallModel, RequestError, MAX_PERCENT,
};
use crate::reply::{
    balance_reply_spec, failure_text, rejection_reply_spec, submission_reply_spec,
    submitted_text, ReplyModel, STATUS_OK, STATUS_SERVER_ERROR,
};

verus! {

/// A collect, disperse or balance request whose address text is an address,
/// with a share of at most `MAX_PERCENT`, is answered by exactly one call
/// carrying that address and share unchanged.
pub proof fn lemma_valid_request_one_call(addr: Seq<char>, percent: u8)
    requires
        is_address_text(addr),
        percent <= MAX_PERCENT,
    ensures
        collect_plan(addr, percent) == Ok::<CallModel, RequestError>(
            CallModel::Collect { addr: address_bytes(addr), percent },
        ),
        disperse_plan(addr, percent) == Ok::<CallModel, RequestError>(
            CallModel::Disperse { addr: address_bytes(addr), percent },
        ),
        balance_plan(addr) == Ok::<CallModel, RequestError>(
            CallModel::GetBalance { addr: address_bytes(addr) },
        ),
{
}

/// A batch request whose every text is an address, with a share of at most
/// `MAX_PERCENT`, is answered by exactly one call over all the addresses, in
/// the order given.
pub proof fn lemma_valid_batch_one_call(texts: Seq<Seq<char>>, percent: u8)
    requires
        all_addresses(texts),
        percent <= MAX_PERCENT,
    ensures
        collect_many_plan(texts, percent) == Ok::<CallModel, RequestError>(
            CallModel::CollectMany {
                addresses: texts.map_values(|t: Seq<char>| address_bytes(t)),
                percent,
            },
        ),
        disperse_all_plan(texts, percent) == Ok::<CallModel, RequestError>(
            CallModel::DisperseAll {
                addresses: texts.map_values(|t: Seq<char>| address_bytes(t)),
                percent,
            },
        ),
{
}

/// The reply to a call depends on its outcome alone: a submitted transaction
/// gives status 200 and its hash, a failure gives status 500 and the error's
/// text, a balance read gives status 200 and exactly that balance.
pub proof fn lemma_reply_follows_outcome(
    submitted: Result<Seq<u8>, Seq<char>>,
    read: Result<nat, Seq<char>>,
)
    ensures
        submitted is Ok ==> submission_reply_spec(submitted) == (ReplyModel::Submitted {
            message: submitted_text(submitted->Ok_0),
        }),
        submitted is Err ==> submission_reply_spec(submitted) == (ReplyModel::Failed {
            message: failure_text(submitted->Err_0),
        }),
        submission_reply_spec(submitted).status() == (if submitted is Ok {
            STATUS_OK
        } else {
            STATUS_SERVER_ERROR
        }),
        read is Ok ==> balance_reply_spec(read) == (ReplyModel::Balance { value: read->Ok_0 }),
        read is Err ==> balance_reply_spec(read) == (ReplyModel::Failed {
            message: failure_text(read->Err_0),
        }),
        balance_reply_spec(read).status() == (if read is Ok {
            STATUS_OK
        } else {
            STATUS_SERVER_ERROR
        }),
{
}

/// Every request that is turned away gets a client-error status.
pub proof fn lemma_rejection_is_client_error(e: RequestError)
    ensures
        400 <= rejection_reply_spec(e).status() < 500,
{
}

/// A text that is no address turns a collect, disperse or balance request
/// away, whatever the share: no call is made.
pub proof fn lemma_malformed_address_rejected(addr: Seq<char>, percent: u8)
    requires
        !is_address_text(addr),
    ensures
        collect_plan(addr, percent) == Err::<CallModel, RequestError>(
            RequestError::InvalidAddress { index: 0 },
        ),
        disperse_plan(addr, percent) == Err::<CallModel, RequestError>(
            RequestError::InvalidAddress { index: 0 },
        ),
        balance_plan(addr) == Err::<CallModel, RequestError>(
            RequestError::InvalidAddress { index: 0 },
        ),
{
}

proof fn lemma_first_invalid_exists(texts: Seq<Seq<char>>, i: int)
    requires
        0 <= i < texts.len(),
        !is_address_text(texts[i]),
    ensures
        exists|k: int| k <= i && first_invalid(texts, k),
    decreases i,
{
    if exists|j: int| 0 <= j < i && !is_address_text(#[trigger] texts[j]) {
        let j = choose|j: int| 0 <= j < i && !is_address_text(#[trigger] texts[j]);
        lemma_first_invalid_exists(texts, j);
    } else {
        assert(first_invalid(texts, i));
    }
}

/// A batch with a text that is no address is turned away, whatever the
/// share: no call is made, and the position reported is the first such text,
/// at or before that one.
pub proof fn lemma_malformed_batch_rejected(texts: Seq<Seq<char>>, percent: u8, i: int)
    requires
        0 <= i < texts.len(),
        texts.len() <= usize::MAX,
        !is_address_text(texts[i]),
    ensures
        collect_many_plan(texts, percent) is Err,
        disperse_all_plan(texts, percent) == collect_many_plan(texts, percent),
        collect_many_plan(texts, percent)->Err_0 matches RequestError::InvalidAddress { index }
            && index <= i && first_invalid(texts, index as int),
{
    lemma_first_invalid_exists(texts, i);
    let w = choose|w: int| w <= i && first_invalid(texts, w);
    let k = choose|k: int| first_invalid(texts, k);
    lemma_first_invalid_unique(texts, w, k);
    assert(!all_addresses(texts));
}

/// A balance query submits no transaction, and its reply carries exactly the
/// balance that was read: with the chain unchanged, asking again gives the
/// same reply.
pub proof fn lemma_balance_read_only(addr: Seq<char>, value: nat)
    ensures
        balance_plan(addr) is Ok ==> !balance_plan(addr)->Ok_0.changes_state(),
        balance_reply_spec(Ok(value)) == (ReplyModel::Balance { value }),
{
}

} // verus!
