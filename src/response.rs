use vstd::prelude::*;

use crate::address::Address;

verus! {

/// The denomination in which payouts are made.
pub const DENOM: &'static str = "utree";

/// What a successful command did; it names the first log entry.
#[derive(Clone, Copy, Debug, PartialEq, Eq, Structural)]
pub enum Action {
    Payout,
    Lock,
    Unlock,
    ChangeBeneficiary,
    ChangeOwner,
}

pub open spec fn action_name(a: Action) -> Seq<char> {
    match a {
        Action::Payout => "payout"@,
        Action::Lock => "lock"@,
        Action::Unlock => "unlock"@,
        Action::ChangeBeneficiary => "change_beneficiary"@,
        Action::ChangeOwner => "change_owner"@,
    }
}

pub open spec fn account_key(a: Action) -> Seq<char> {
    match a {
        Action::Payout => "to"@,
        _ => "account"@,
    }
}

impl Action {
    /// The value logged under the key `action`.
    pub fn name(&self) -> (r: &'static str)
        ensures
            r@ == action_name(*self),
    {
        match self {
            Action::Payout => "payout",
            Action::Lock => "lock",
            Action::Unlock => "unlock",
            Action::ChangeBeneficiary => "change_beneficiary",
            Action::ChangeOwner => "change_owner",
        }
    }

    /// The key under which the account of the second log entry is logged:
    /// the recipient of a payout, the signer otherwise.
    pub fn account_key(&self) -> (r: &'static str)
        ensures
            r@ == account_key(*self),
    {
        match self {
            Action::Payout => "to",
            _ => "account",
        }
    }
}

/// An outbound transfer of `amount` tokens of [`DENOM`].
#[derive(Clone, Debug, PartialEq, Eq)]
pub struct Transfer {
    pub from_address: Address,
    pub to_address: Address,
    pub amount: i64,
}

/// The effects of a successful command: at most one transfer, and a log of
/// two entries, `action` with the action's name and the account key with
/// `account`.
#[derive(Clone, Debug, PartialEq, Eq)]
pub struct Response {
    pub transfer: Option<Transfer>,
    pub action: Action,
    pub account: Address,
}

pub struct TransferView {
    pub from_address: Seq<u8>,
    pub to_address: Seq<u8>,
    pub amount: int,
}

pub struct ResponseView {
    pub transfer: Option<TransferView>,
    pub action: Action,
    pub account: Seq<u8>,
}

impl View for Transfer {
    type V = TransferView;

    open spec fn view(&self) -> TransferView {
        TransferView {
            from_address: self.from_address@,
            to_address: self.to_address@,
            amount: self.amount as int,
        }
    }
}

impl View for Response {
    type V = ResponseView;

    open spec fn view(&self) -> ResponseView {
        ResponseView {
            transfer: match self.transfer {
                Some(t) => Some(t@),
                None => None,
            },
            action: self.action,
            account: self.account@,
        }
    }
}

/// A business rule that refused a command.
#[derive(Clone, Copy, Debug, PartialEq, Eq, Structural)]
pub enum Violation {
    ExpiredContract,
    Locked,
    AlreadyLocked,
    AlreadyUnlocked,
    NoFunds,
    NotEnoughImprovement,
}

pub open spec fn violation_message(v: Violation) -> Seq<char> {
    match v {
        Violation::ExpiredContract => "creating expired contract"@,
        Violation::Locked => "contract is locked. no payout possible"@,
        Violation::AlreadyLocked => "contract already locked"@,
        Violation::AlreadyUnlocked => "contract already unlocked"@,
        Violation::NoFunds => "No more funds available"@,
        Violation::NotEnoughImprovement => "Not enough improvement for payout"@,
    }
}

impl Violation {
    /// The text that the host reports for this refusal.
    pub fn message(&self) -> (r: &'static str)
        ensures
            r@ == violation_message(*self),
    {
        match self {
            Violation::ExpiredContract => "creating expired contract",
            Violation::Locked => "contract is locked. no payout possible",
            Violation::AlreadyLocked => "contract already locked",
            Violation::AlreadyUnlocked => "contract already unlocked",
            Violation::NoFunds => "No more funds available",
            Violation::NotEnoughImprovement => "Not enough improvement for payout",
        }
    }
}

/// Why a command or a query failed.
#[derive(Clone, Copy, Debug, PartialEq, Eq, Structural)]
pub enum ContractError {
    /// The signer does not hold the role that the command needs.
    Unauthorized,
    /// A business rule refused the command.
    Violation(Violation),
    /// Queries are declared but not served.
    NotImplemented,
}

} // verus!
