//! The contract operations that the gateway forwards, and the checks a
//! request must pass before its one call is made.
use vstd::prelude::*;

use crate::address::{Address, address_bytes, is_address_text};
use crate::uint::Uint256;

verus! {

/// The largest share, in percent, that a collect or disperse may name.
pub const MAX_PERCENT: u8 = 100;

/// Why a request was turned away before any call was made.
#[derive(Clone, Copy, Debug, PartialEq, Eq, Structural)]
pub enum RequestError {
    /// The address at this position of the request is not an address
    /// (position 0 where the request holds a single one).
    InvalidAddress { index: usize },
    /// The share lies above `MAX_PERCENT`.
    PercentOutOfRange { percent: u8 },
}

/// One call of the contract, with its arguments checked.
#[derive(Debug)]
pub enum ContractCall {
    Withdraw { amount: Uint256 },
    Collect { addr: Address, percent: u8 },
    Disperse { addr: Address, percent: u8 },
    CollectMany { addresses: Vec<Address>, percent: u8 },
    DisperseAll { addresses: Vec<Address>, percent: u8 },
    GetBalance { addr: Address },
}

/// What a `ContractCall` is: the operation and its arguments as plain values.
pub enum CallModel {
    Withdraw { amount: nat },
    Collect { addr: Seq<u8>, percent: u8 },
    Disperse { addr: Seq<u8>, percent: u8 },
    CollectMany { addresses: Seq<Seq<u8>>, percent: u8 },
    DisperseAll { addresses: Seq<Seq<u8>>, percent: u8 },
    GetBalance { addr: Seq<u8> },
}

impl CallModel {
    /// Every operation but the balance query submits a transaction.
    pub open spec fn changes_state(self) -> bool {
        !(self is GetBalance)
    }
}

pub open spec fn addresses_view(v: Seq<Address>) -> Seq<Seq<u8>> {
    v.map_values(|a: Address| a@)
}

impl View for ContractCall {
    type V = CallModel;

    open spec fn view(&self) -> CallModel {
        match self {
            ContractCall::Withdraw { amount } => CallModel::Withdraw { amount: amount@ },
            ContractCall::Collect { addr, percent } => CallModel::Collect {
                addr: addr@,
                percent: *percent,
            },
            ContractCall::Disperse { addr, percent } => CallModel::Disperse {
                addr: addr@,
                percent: *percent,
            },
            ContractCall::CollectMany { addresses, percent } => CallModel::CollectMany {
                addresses: addresses_view(addresses@),
                percent: *percent,
            },
            ContractCall::DisperseAll { addresses, percent } => CallModel::DisperseAll {
                addresses: addresses_view(addresses@),
                percent: *percent,
            },
            ContractCall::GetBalance { addr } => CallModel::GetBalance { addr: addr@ },
        }
    }
}

impl ContractCall {
    /// Whether the call submits a transaction rather than only reading.
    pub fn changes_state(&self) -> (r: bool)
        ensures
            r == self@.changes_state(),
    {
        match self {
            ContractCall::GetBalance { .. } => false,
            _ => true,
        }
    }
}

/// A checked request as a plain value: the call, or why there is none.
pub open spec fn planned(r: Result<ContractCall, RequestError>) -> Result<CallModel, RequestError> {
    match r {
        Ok(c) => Ok(c@),
        Err(e) => Err(e),
    }
}

pub open spec fn percent_in_range(percent: u8) -> bool {
    percent <= MAX_PERCENT
}

/// `i` is the first position whose text is no address.
pub open spec fn first_invalid(texts: Seq<Seq<char>>, i: int) -> bool {
    &&& 0 <= i < texts.len()
    &&& !is_address_text(texts[i])
    &&& forall|j: int| 0 <= j < i ==> is_address_text(#[trigger] texts[j])
}

pub open spec fn all_addresses(texts: Seq<Seq<char>>) -> bool {
    forall|i: int| 0 <= i < texts.len() ==> is_address_text(#[trigger] texts[i])
}

/// The addresses of a list of texts, or the first position that holds none.
pub open spec fn batch_addresses(texts: Seq<Seq<char>>) -> Result<Seq<Seq<u8>>, RequestError> {
    if all_addresses(texts) {
        Ok(texts.map_values(|t: Seq<char>| address_bytes(t)))
    } else {
        Err(RequestError::InvalidAddress { index: (choose|i: int| first_invalid(texts, i)) as usize })
    }
}

pub open spec fn single_plan(addr: Seq<char>, percent: u8) -> Result<Seq<u8>, RequestError> {
    if !is_address_text(addr) {
        Err(RequestError::InvalidAddress { index: 0 })
    } else if !percent_in_range(percent) {
        Err(RequestError::PercentOutOfRange { percent })
    } else {
        Ok(address_bytes(addr))
    }
}

pub open spec fn batch_plan(texts: Seq<Seq<char>>, percent: u8) -> Result<Seq<Seq<u8>>, RequestError> {
    match batch_addresses(texts) {
        Err(e) => Err(e),
        Ok(addrs) => if percent_in_range(percent) {
            Ok(addrs)
        } else {
            Err(RequestError::PercentOutOfRange { percent })
        },
    }
}

pub open spec fn collect_plan(addr: Seq<char>, percent: u8) -> Result<CallModel, RequestError> {
    match single_plan(addr, percent) {
        Ok(a) => Ok(CallModel::Collect { addr: a, percent }),
        Err(e) => Err(e),
    }
}

pub open spec fn disperse_plan(addr: Seq<char>, percent: u8) -> Result<CallModel, RequestError> {
    match single_plan(addr, percent) {
        Ok(a) => Ok(CallModel::Disperse { addr: a, percent }),
        Err(e) => Err(e),
    }
}

pub open spec fn collect_many_plan(texts: Seq<Seq<char>>, percent: u8) -> Result<CallModel, RequestError> {
    match batch_plan(texts, percent) {
        Ok(a) => Ok(CallModel::CollectMany { addresses: a, percent }),
        Err(e) => Err(e),
    }
}

pub open spec fn disperse_all_plan(texts: Seq<Seq<char>>, percent: u8) -> Result<CallModel, RequestError> {
    match batch_plan(texts, percent) {
        Ok(a) => Ok(CallModel::DisperseAll { addresses: a, percent }),
        Err(e) => Err(e),
    }
}

pub open spec fn balance_plan(addr: Seq<char>) -> Result<CallModel, RequestError> {
    if is_address_text(addr) {
        Ok(CallModel::GetBalance { addr: address_bytes(addr) })
    } else {
        Err(RequestError::InvalidAddress { index: 0 })
    }
}

pub open spec fn texts_view(v: Seq<String>) -> Seq<Seq<char>> {
    v.map_values(|s: String| s@)
}

/// No two positions are both the first invalid one.
pub proof fn lemma_first_invalid_unique(texts: Seq<Seq<char>>, i: int, k: int)
    requires
        first_invalid(texts, i),
        first_invalid(texts, k),
    ensures
        i == k,
{
    if i < k {
        assert(is_address_text(texts[i]));
    } else if k < i {
        assert(is_address_text(texts[k]));
    }
}

pub(crate) fn parse_single(addr: &String, percent: u8) -> (r: Result<Address, RequestError>)
    ensures
        match r {
            Ok(a) => single_plan(addr@, percent) == Ok::<Seq<u8>, RequestError>(a@),
            Err(e) => single_plan(addr@, percent) == Err::<Seq<u8>, RequestError>(e),
        },
{
    match Address::parse(addr.as_str()) {
        None => Err(RequestError::InvalidAddress { index: 0 }),
        Some(a) => if percent > MAX_PERCENT {
            Err(RequestError::PercentOutOfRange { percent })
        } else {
            Ok(a)
        },
    }
}

pub(crate) fn parse_batch(texts: &Vec<String>, percent: u8) -> (r: Result<Vec<Address>, RequestError>)
    ensures
        match r {
            Ok(v) => batch_plan(texts_view(texts@), percent) == Ok::<Seq<Seq<u8>>, RequestError>(
                addresses_view(v@),
            ),
            Err(e) => batch_plan(texts_view(texts@), percent) == Err::<Seq<Seq<u8>>, RequestError>(e),
        },
{
    let ghost tv = texts_view(texts@);
    let mut out: Vec<Address> = Vec::new();
    let mut i: usize = 0;
    while i < texts.len()
        invariant
            i <= texts.len(),
            tv == texts_view(texts@),
            out@.len() == i,
            forall|j: int| 0 <= j < i ==> is_address_text(#[trigger] tv[j]),
            forall|j: int| 0 <= j < i ==> (#[trigger] out@[j])@ == address_bytes(tv[j]),
        decreases texts.len() - i,
    {
        match Address::parse(texts[i].as_str()) {
            None => {
                proof {
                    assert(first_invalid(tv, i as int));
                    let k = choose|k: int| first_invalid(tv, k);
                    lemma_first_invalid_unique(tv, i as int, k);
                }
                return Err(RequestError::InvalidAddress { index: i });
            },
            Some(a) => {
                out.push(a);
            },
        }
        i = i + 1;
    }
    assert(all_addresses(tv));
    assert(addresses_view(out@) =~= tv.map_values(|t: Seq<char>| address_bytes(t)));
    if percent > MAX_PERCENT {
        return Err(RequestError::PercentOutOfRange { percent });
    }
    Ok(out)
}

} // verus!
