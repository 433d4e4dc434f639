use vstd::prelude::*;

use crate::address::Address;
use crate::msg::{Env, HandleMsg, InitMsg, QueryMsg};
use crate::payout::{calculate_payout, payout, payout_fits, payout_in_range};
use crate::response::{
    Action, ContractError, Response, ResponseView, Transfer, TransferView, Violation,
};
use crate::state::{State, StateView};

verus! {

/// The state that a successful initialization stores.
pub open spec fn initial_state(env: Env, msg: InitMsg) -> StateView {
    StateView {
        region: msg.region@,
        beneficiary: msg.beneficiary@,
        owner: env.signer@,
        oracle: msg.oracle@,
        ecostate: msg.ecostate as int,
        total_tokens: msg.total_tokens as int,
        released_tokens: 0,
        payout_start_height: msg.payout_start_height as int,
        payout_end_height: msg.payout_end_height as int,
        is_locked: false,
    }
}

/// Initialization fails, storing nothing, once the payout window has closed.
pub open spec fn init_outcome(env: Env, msg: InitMsg) -> Result<StateView, ContractError> {
    let s = initial_state(env, msg);
    if s.expired_at(env.height as int) {
        Err(ContractError::Violation(Violation::ExpiredContract))
    } else {
        Ok(s)
    }
}

/// The role whose address must sign a command.
pub open spec fn role_for(s: StateView, msg: HandleMsg) -> Seq<u8> {
    match msg {
        HandleMsg::UpdateEcostate { .. } => s.oracle,
        HandleMsg::ChangeBeneficiary { .. } => s.beneficiary,
        _ => s.owner,
    }
}

/// The effects of a command that only logs who did it.
pub open spec fn log_response(action: Action, account: Seq<u8>) -> ResponseView {
    ResponseView { transfer: None, action, account }
}

/// The effects of a payout of `amount` from the contract to `to`.
pub open spec fn payout_response(from: Seq<u8>, to: Seq<u8>, amount: int) -> ResponseView {
    ResponseView {
        transfer: Some(TransferView { from_address: from, to_address: to, amount }),
        action: Action::Payout,
        account: to,
    }
}

/// A metric report by the oracle.
pub open spec fn payout_outcome(s: StateView, contract: Seq<u8>, ecostate: int) -> Result<
    (StateView, ResponseView),
    ContractError,
> {
    let available = s.available();
    let tokens = payout(s.ecostate, ecostate);
    if s.is_locked {
        Err(ContractError::Violation(Violation::Locked))
    } else if available <= 0 {
        Err(ContractError::Violation(Violation::NoFunds))
    } else if tokens == 0 {
        Err(ContractError::Violation(Violation::NotEnoughImprovement))
    } else {
        let amount = if tokens > available {
            available
        } else {
            tokens
        };
        let released = if tokens > available {
            s.total_tokens
        } else {
            s.released_tokens + tokens
        };
        Ok(
            (
                StateView { ecostate, released_tokens: released, ..s },
                payout_response(contract, s.beneficiary, amount),
            ),
        )
    }
}

/// What an authorized command does.
pub open spec fn apply_outcome(s: StateView, env: Env, msg: HandleMsg) -> Result<
    (StateView, ResponseView),
    ContractError,
> {
    match msg {
        HandleMsg::UpdateEcostate { ecostate } => payout_outcome(
            s,
            env.contract_address@,
            ecostate as int,
        ),
        HandleMsg::Lock {  } => if s.is_locked {
            Err(ContractError::Violation(Violation::AlreadyLocked))
        } else {
            Ok((StateView { is_locked: true, ..s }, log_response(Action::Lock, env.signer@)))
        },
        HandleMsg::UnLock {  } => if !s.is_locked {
            Err(ContractError::Violation(Violation::AlreadyUnlocked))
        } else {
            Ok((StateView { is_locked: false, ..s }, log_response(Action::Unlock, env.signer@)))
        },
        HandleMsg::ChangeBeneficiary { beneficiary } => Ok(
            (
                StateView { beneficiary: beneficiary@, ..s },
                log_response(Action::ChangeBeneficiary, env.signer@),
            ),
        ),
        HandleMsg::TransferOwnership { owner } => Ok(
            (
                StateView { owner: owner@, ..s },
                log_response(Action::ChangeOwner, env.signer@),
            ),
        ),
    }
}

/// The new state and effects of a command, or the error that refuses it.
pub open spec fn handle_outcome(s: StateView, env: Env, msg: HandleMsg) -> Result<
    (StateView, ResponseView),
    ContractError,
> {
    if env.signer@ != role_for(s, msg) {
        Err(ContractError::Unauthorized)
    } else {
        apply_outcome(s, env, msg)
    }
}

/// The command's arithmetic fits in `i64`: only a metric report that reaches
/// the payout rule computes anything that could overflow.
pub open spec fn handle_defined(s: StateView, env: Env, msg: HandleMsg) -> bool {
    match msg {
        HandleMsg::UpdateEcostate { ecostate } => (env.signer@ == s.oracle && !s.is_locked
            && s.available() > 0) ==> payout_fits(s.ecostate, ecostate as int),
        _ => true,
    }
}

/// `r` is the result that `outcome` describes, with the state going from
/// `before` to `after`; a failure leaves the state as it was.
pub open spec fn handled_as(
    r: Result<Response, ContractError>,
    before: StateView,
    after: StateView,
    outcome: Result<(StateView, ResponseView), ContractError>,
) -> bool {
    match r {
        Ok(resp) => outcome == Ok::<(StateView, ResponseView), ContractError>((after, resp@)),
        Err(e) => outcome == Err::<(StateView, ResponseView), ContractError>(e) && after == before,
    }
}

/// A contract created with a non-negative budget starts within it.
pub proof fn lemma_init_within_budget(env: Env, msg: InitMsg)
    requires
        msg.total_tokens >= 0,
    ensures
        init_outcome(env, msg) matches Ok(s) ==> s.within_budget(),
{
}

/// Every command keeps the released amount between zero and the budget, and
/// never changes the budget.
pub proof fn lemma_command_keeps_budget(s: StateView, env: Env, msg: HandleMsg)
    requires
        s.within_budget(),
    ensures
        handle_outcome(s, env, msg) matches Ok((t, _)) ==> t.within_budget() && t.total_tokens
            == s.total_tokens,
{
}

/// Creates the state of a new contract instance, owned by the signer, or
/// refuses when the block height is already past the payout window.
pub fn init(env: &Env, msg: InitMsg) -> (r: Result<State, ContractError>)
    ensures
        match r {
            Ok(s) => init_outcome(*env, msg) == Ok::<StateView, ContractError>(s@),
            Err(e) => init_outcome(*env, msg) == Err::<StateView, ContractError>(e),
        },
        r is Err <==> env.height > msg.payout_end_height,
        r matches Ok(s) ==> s@.wf(),
{
    let ghost m = msg;
    let state = State {
        region: msg.region,
        beneficiary: msg.beneficiary,
        oracle: msg.oracle,
        ecostate: msg.ecostate,
        total_tokens: msg.total_tokens,
        released_tokens: 0,
        payout_start_height: msg.payout_start_height,
        payout_end_height: msg.payout_end_height,
        is_locked: false,
        owner: env.signer.duplicate(),
    };
    assert(state@ == initial_state(*env, m));
    if state.is_expired(env) {
        Err(ContractError::Violation(Violation::ExpiredContract))
    } else {
        Ok(state)
    }
}

/// The authorization rule: whether `signer` may issue `msg` against `state`.
pub fn is_authorized(state: &State, signer: &Address, msg: &HandleMsg) -> (r: bool)
    ensures
        r == (signer@ == role_for(state@, *msg)),
{
    let role = match msg {
        HandleMsg::UpdateEcostate { .. } => &state.oracle,
        HandleMsg::ChangeBeneficiary { .. } => &state.beneficiary,
        _ => &state.owner,
    };
    role.same_as(signer)
}

/// Tells whether [`handle`] can be called on these values.
pub fn handle_is_defined(state: &State, env: &Env, msg: &HandleMsg) -> (r: bool)
    ensures
        r == handle_defined(state@, *env, *msg),
{
    match msg {
        HandleMsg::UpdateEcostate { ecostate } => {
            if state.oracle.same_as(&env.signer) && !state.is_locked && (state.total_tokens as i128
                - state.released_tokens as i128) > 0 {
                payout_in_range(state.ecostate, *ecostate)
            } else {
                true
            }
        },
        _ => true,
    }
}

/// Runs a command against `state`: on success `state` holds the new state and
/// the effects are returned; on failure `state` is left as it was.
pub fn handle(state: &mut State, env: &Env, msg: HandleMsg) -> (r: Result<Response, ContractError>)
    requires
        old(state)@.wf(),
        handle_defined(old(state)@, *env, msg),
    ensures
        handled_as(r, old(state)@, final(state)@, handle_outcome(old(state)@, *env, msg)),
        final(state)@.wf(),
        old(state)@.within_budget() ==> final(state)@.within_budget(),
{
    if !is_authorized(state, &env.signer, &msg) {
        return Err(ContractError::Unauthorized);
    }
    match msg {
        HandleMsg::UpdateEcostate { ecostate } => try_payout(state, &env.contract_address, ecostate),
        HandleMsg::Lock {  } => try_lock(state, &env.signer),
        HandleMsg::UnLock {  } => try_unlock(state, &env.signer),
        HandleMsg::ChangeBeneficiary { beneficiary } => try_change_beneficiary(
            state,
            &env.signer,
            beneficiary,
        ),
        HandleMsg::TransferOwnership { owner } => try_transfer_ownership(state, &env.signer, owner),
    }
}

fn try_payout(state: &mut State, contract: &Address, ecostate: i64) -> (r: Result<
    Response,
    ContractError,
>)
    requires
        old(state)@.wf(),
        (!old(state).is_locked && old(state)@.available() > 0) ==> payout_fits(
            old(state).ecostate as int,
            ecostate as int,
        ),
    ensures
        handled_as(
            r,
            old(state)@,
            final(state)@,
            payout_outcome(old(state)@, contract@, ecostate as int),
        ),
        final(state)@.wf(),
        old(state)@.within_budget() ==> final(state)@.within_budget(),
{
    let available: i64 = state.total_tokens - state.released_tokens;
    if state.is_locked {
        Err(ContractError::Violation(Violation::Locked))
    } else if available <= 0 {
        Err(ContractError::Violation(Violation::NoFunds))
    } else {
        let tokens = calculate_payout(state.ecostate, ecostate);
        if tokens != 0 {
            state.ecostate = ecostate;
            let amount: i64;
            if tokens > available {
                amount = available;
                state.released_tokens = state.total_tokens;
            } else {
                amount = tokens;
                state.released_tokens = state.released_tokens + tokens;
            }
            Ok(send_tokens(contract, &state.beneficiary, amount))
        } else {
            Err(ContractError::Violation(Violation::NotEnoughImprovement))
        }
    }
}

fn try_lock(state: &mut State, signer: &Address) -> (r: Result<Response, ContractError>)
    ensures
        handled_as(
            r,
            old(state)@,
            final(state)@,
            if old(state).is_locked {
                Err(ContractError::Violation(Violation::AlreadyLocked))
            } else {
                Ok(
                    (
                        StateView { is_locked: true, ..old(state)@ },
                        log_response(Action::Lock, signer@),
                    ),
                )
            },
        ),
{
    if state.is_locked {
        Err(ContractError::Violation(Violation::AlreadyLocked))
    } else {
        state.is_locked = true;
        Ok(log_entry(Action::Lock, signer))
    }
}

fn try_unlock(state: &mut State, signer: &Address) -> (r: Result<Response, ContractError>)
    ensures
        handled_as(
            r,
            old(state)@,
            final(state)@,
            if !old(state).is_locked {
                Err(ContractError::Violation(Violation::AlreadyUnlocked))
            } else {
                Ok(
                    (
                        StateView { is_locked: false, ..old(state)@ },
                        log_response(Action::Unlock, signer@),
                    ),
                )
            },
        ),
{
    if !state.is_locked {
        Err(ContractError::Violation(Violation::AlreadyUnlocked))
    } else {
        state.is_locked = false;
        Ok(log_entry(Action::Unlock, signer))
    }
}

fn try_change_beneficiary(state: &mut State, signer: &Address, beneficiary: Address) -> (r: Result<
    Response,
    ContractError,
>)
    ensures
        r matches Ok(resp) && resp@ == log_response(Action::ChangeBeneficiary, signer@),
        final(state)@ == (StateView { beneficiary: beneficiary@, ..old(state)@ }),
{
    state.beneficiary = beneficiary;
    Ok(log_entry(Action::ChangeBeneficiary, signer))
}

fn try_transfer_ownership(state: &mut State, signer: &Address, owner: Address) -> (r: Result<
    Response,
    ContractError,
>)
    ensures
        r matches Ok(resp) && resp@ == log_response(Action::ChangeOwner, signer@),
        final(state)@ == (StateView { owner: owner@, ..old(state)@ }),
{
    state.owner = owner;
    Ok(log_entry(Action::ChangeOwner, signer))
}

/// The effects of a command that only logs the account that issued it.
fn log_entry(action: Action, account: &Address) -> (r: Response)
    ensures
        r@ == log_response(action, account@),
{
    Response { transfer: None, action, account: account.duplicate() }
}

/// The effects of a payout: a transfer of `amount` from the contract to the
/// beneficiary, logged with the recipient.
fn send_tokens(from_address: &Address, to_address: &Address, amount: i64) -> (r: Response)
    ensures
        r@ == payout_response(from_address@, to_address@, amount as int),
{
    let transfer = Transfer {
        from_address: from_address.duplicate(),
        to_address: to_address.duplicate(),
        amount,
    };
    Response { transfer: Some(transfer), action: Action::Payout, account: to_address.duplicate() }
}

/// Answers a read request. No request is served: every one fails.
pub fn query(_msg: &QueryMsg) -> (r: Result<Vec<u8>, ContractError>)
    ensures
        r == Err::<Vec<u8>, ContractError>(ContractError::NotImplemented),
{
    Err(ContractError::NotImplemented)
}

} // verus!
