//! The six requests the gateway serves, each checked and turned into the one
//! contract call it asks for.
use vstd::prelude::*;

use crate::call::{
    balance_plan, collect_many_plan, collect_plan, disperse_all_plan, disperse_plan, parse_batch,
    parse_single, planned, texts_view, CallModel, ContractCall, RequestError,
};
use crate::address::Address;
use crate::uint::Uint256;

verus! {

/// Body of `POST /withdraw`.
#[derive(Debug)]
pub struct WithdrawRequest {
    pub amount: u64,
}

/// Body of `POST /collect`.
#[derive(Debug)]
pub struct CollectRequest {
    pub addr: String,
    pub percent: u8,
}

/// Body of `POST /disperse`.
#[derive(Debug)]
pub struct DisperseRequest {
    pub addr: String,
    pub percent: u8,
}

/// Body of `POST /collect_many`.
#[derive(Debug)]
pub struct CollectManyRequest {
    pub addresses: Vec<String>,
    pub percent: u8,
}

/// Body of `POST /disperse_all`.
#[derive(Debug)]
pub struct DisperseAllRequest {
    pub addresses: Vec<String>,
    pub percent: u8,
}

/// A withdrawal of any amount, zero included, is forwarded as it is, widened
/// to the contract's 256 bits.
pub fn withdraw(req: &WithdrawRequest) -> (r: ContractCall)
    ensures
        r@ == (CallModel::Withdraw { amount: req.amount as nat }),
{
    ContractCall::Withdraw { amount: Uint256::from_u64(req.amount) }
}

/// Collects `percent` from one address.
pub fn collect(req: &CollectRequest) -> (r: Result<ContractCall, RequestError>)
    ensures
        planned(r) == collect_plan(req.addr@, req.percent),
{
    match parse_single(&req.addr, req.percent) {
        Ok(addr) => Ok(ContractCall::Collect { addr, percent: req.percent }),
        Err(e) => Err(e),
    }
}

/// Disperses `percent` to one address.
pub fn disperse(req: &DisperseRequest) -> (r: Result<ContractCall, RequestError>)
    ensures
        planned(r) == disperse_plan(req.addr@, req.percent),
{
    match parse_single(&req.addr, req.percent) {
        Ok(addr) => Ok(ContractCall::Disperse { addr, percent: req.percent }),
        Err(e) => Err(e),
    }
}

/// Collects `percent` from every listed address, in one call.
pub fn collect_many(req: &CollectManyRequest) -> (r: Result<ContractCall, RequestError>)
    ensures
        planned(r) == collect_many_plan(texts_view(req.addresses@), req.percent),
{
    match parse_batch(&req.addresses, req.percent) {
        Ok(addresses) => Ok(ContractCall::CollectMany { addresses, percent: req.percent }),
        Err(e) => Err(e),
    }
}

/// Disperses `percent` to every listed address, in one call.
pub fn disperse_all(req: &DisperseAllRequest) -> (r: Result<ContractCall, RequestError>)
    ensures
        planned(r) == disperse_all_plan(texts_view(req.addresses@), req.percent),
{
    match parse_batch(&req.addresses, req.percent) {
        Ok(addresses) => Ok(ContractCall::DisperseAll { addresses, percent: req.percent }),
        Err(e) => Err(e),
    }
}

/// Reads the balance held for the address in the path.
pub fn get_balance(addr: &str) -> (r: Result<ContractCall, RequestError>)
    ensures
        planned(r) == balance_plan(addr@),
{
    match Address::parse(addr) {
        Some(a) => Ok(ContractCall::GetBalance { addr: a }),
        None => Err(RequestError::InvalidAddress { index: 0 }),
    }
}

} // verus!
