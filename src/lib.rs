//! A token disbursement contract: an oracle reports an ecological metric,
//! improvements of that metric release tokens to a beneficiary, and an owner
//! may lock the payouts.
//!
//! The contract logic is a set of pure transitions over an explicit [`State`]
//! value; loading and saving that value, and turning the produced effects into
//! host messages, is left to the host layer.

pub mod address;
pub mod contract;
pub mod msg;
pub mod payout;
pub mod response;
pub mod state;

pub use address::Address;
pub use contract::{handle, handle_is_defined, init, is_authorized, query};
pub use msg::{Env, HandleMsg, InitMsg, QueryMsg};
pub use payout::{calculate_payout, payout_in_range};
pub use response::{Action, ContractError, Response, Transfer, Violation, DENOM};
pub use state::State;
