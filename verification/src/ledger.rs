//! Argument and record types of a ledger service, as plain data.

use vstd::prelude::*;

verus! {

/// A named property of a minted item.
#[derive(Clone, Debug, PartialEq, Eq)]
pub struct Property {
    pub name: String,
    pub value: String,
}

/// What a recorded transaction did.
#[allow(non_camel_case_types)]
#[derive(Clone, Copy, Debug, PartialEq, Eq)]
pub enum Operation {
    delist,
    init,
    list,
    mint,
    burn,
    purchase,
    transfer,
    approval,
}

impl Default for Operation {
    /// The operation a fresh record starts with.
    fn default() -> (op: Self)
        ensures
            op == Operation::init,
    {
        Operation::init
    }
}

/// An amount of tokens, in units of 10^-8.
#[derive(Clone, Copy, Debug, PartialEq, Eq)]
pub struct ICPTs {
    pub e8s: u64,
}

/// A point in time, in nanoseconds since the epoch.
#[derive(Clone, Copy, Debug, PartialEq, Eq)]
pub struct TimeStamp {
    pub timestamp_nanos: u64,
}

/// One of the accounts of a principal.
#[derive(Clone, Copy, Debug, PartialEq, Eq)]
pub struct Subaccount(pub [u8; 32]);

/// The arguments of a transfer.
#[derive(Clone, Debug, PartialEq, Eq)]
pub struct SendArgs {
    pub memo: u64,
    pub amount: ICPTs,
    pub fee: ICPTs,
    pub from_subaccount: Option<Subaccount>,
    pub to: String,
    pub created_at_time: Option<TimeStamp>,
}

} // verus!
