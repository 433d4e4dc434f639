use vstd::prelude::*;

use crate::address::Address;
use crate::msg::Env;

verus! {

/// The persisted record of a contract instance.
#[derive(Clone, Debug, PartialEq, Eq)]
pub struct State {
    pub region: String,
    pub beneficiary: Address,
    pub owner: Address,
    pub oracle: Address,
    pub ecostate: i64,
    pub total_tokens: i64,
    pub released_tokens: i64,
    pub payout_start_height: i64,
    pub payout_end_height: i64,
    pub is_locked: bool,
}

/// The mathematical content of a [`State`].
pub struct StateView {
    pub region: Seq<char>,
    pub beneficiary: Seq<u8>,
    pub owner: Seq<u8>,
    pub oracle: Seq<u8>,
    pub ecostate: int,
    pub total_tokens: int,
    pub released_tokens: int,
    pub payout_start_height: int,
    pub payout_end_height: int,
    pub is_locked: bool,
}

impl View for State {
    type V = StateView;

    open spec fn view(&self) -> StateView {
        StateView {
            region: self.region@,
            beneficiary: self.beneficiary@,
            owner: self.owner@,
            oracle: self.oracle@,
            ecostate: self.ecostate as int,
            total_tokens: self.total_tokens as int,
            released_tokens: self.released_tokens as int,
            payout_start_height: self.payout_start_height as int,
            payout_end_height: self.payout_end_height as int,
            is_locked: self.is_locked,
        }
    }
}

impl StateView {
    /// Tokens that may still be released.
    pub open spec fn available(self) -> int {
        self.total_tokens - self.released_tokens
    }

    /// What every state that the contract produces satisfies: nothing is
    /// released below zero, and once anything is released the released amount
    /// stays within the budget.
    pub open spec fn wf(self) -> bool {
        &&& 0 <= self.released_tokens
        &&& (self.released_tokens == 0 || self.released_tokens <= self.total_tokens)
    }

    /// The released amount lies between zero and the budget.
    pub open spec fn within_budget(self) -> bool {
        0 <= self.released_tokens <= self.total_tokens
    }

    pub open spec fn expired_at(self, height: int) -> bool {
        height > self.payout_end_height
    }
}

impl State {
    /// Whether the payout window has closed at the invocation's block height.
    pub fn is_expired(&self, env: &Env) -> (r: bool)
        ensures
            r == self@.expired_at(env.height as int),
    {
        env.height > self.payout_end_height
    }

    /// Whether the released amount is consistent with the budget, as every
    /// state produced by the contract is.
    pub fn well_formed(&self) -> (r: bool)
        ensures
            r == self@.wf(),
    {
        self.released_tokens >= 0 && (self.released_tokens == 0 || self.released_tokens
            <= self.total_tokens)
    }
}

} // verus!
