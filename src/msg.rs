use vstd::prelude::*;

use crate::address::Address;

verus! {

/// What the host hands over with an invocation: who signed it, which
/// contract runs it, and the current block height.
#[derive(Clone, Debug, PartialEq, Eq)]
pub struct Env {
    pub height: i64,
    pub signer: Address,
    pub contract_address: Address,
}

/// Parameters of a new contract instance.
#[derive(Clone, Debug, PartialEq, Eq)]
pub struct InitMsg {
    pub region: String,
    pub beneficiary: Address,
    pub oracle: Address,
    pub ecostate: i64,
    pub total_tokens: i64,
    pub payout_start_height: i64,
    pub payout_end_height: i64,
}

/// The commands that change a contract instance.
#[derive(Clone, Debug, PartialEq, Eq)]
pub enum HandleMsg {
    UpdateEcostate { ecostate: i64 },
    Lock {},
    UnLock {},
    ChangeBeneficiary { beneficiary: Address },
    TransferOwnership { owner: Address },
}

/// The read requests that a contract instance declares.
#[derive(Clone, Debug, PartialEq, Eq)]
pub enum QueryMsg {
    State {},
    Balance { address: String },
}

} // verus!
