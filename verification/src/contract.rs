//! The contract's entry points and the transitions they implement.
//!
//! Each entry point takes the contract's storage slot and the caller's
//! identity, both injected by the host environment, applies one command
//! or query, and returns an acknowledgement or the query answer.  The
//! `ensures` clauses tie every entry point to a spec-level transition on
//! the stored record's view.
//!
//! Overflow policy: `Increase` and `Decrease` wrap around on overflow.

use vstd::prelude::*;

use crate::msg::{ContractError, HandleMsg, HandleResponse, InitMsg, InitResponse, QueryMsg};
use crate::render::{dec_string, even_odd_string, render_even_odd};
use crate::state::{State, StateView, Storage};

verus! {

/// The record created by initialization: the given counter value, owned
/// by the caller that initialized the contract.
pub open spec fn initialized(count: i32, sender: Seq<char>) -> StateView {
    StateView { count, owner: sender }
}

/// The record after `Increase { value }`: the counter grows by `value`,
/// wrapping on overflow; the owner is untouched.
pub open spec fn increased(state: StateView, value: i32) -> StateView {
    StateView { count: vstd::wrapping::i32_specs::wrapping_add(state.count, value), owner: state.owner }
}

/// The record after `Decrease { value }`: the counter shrinks by `value`,
/// wrapping on overflow; the owner is untouched.
pub open spec fn decreased(state: StateView, value: i32) -> StateView {
    StateView { count: vstd::wrapping::i32_specs::wrapping_sub(state.count, value), owner: state.owner }
}

/// Whether `sender` may reset the counter: only the owner may.
pub open spec fn reset_allowed(state: StateView, sender: Seq<char>) -> bool {
    sender == state.owner
}

/// The record after a permitted `Reset { count }`: the counter is
/// overwritten with `count`; the owner is untouched.
pub open spec fn reset_state(state: StateView, count: i32) -> StateView {
    StateView { count, owner: state.owner }
}

/// The query answer for a stored record.
pub open spec fn query_answer(state: StateView) -> Seq<char> {
    even_odd_string(state.count as int)
}

/// One step of the contract on a command: the storage contents after the
/// command, and the error if the command fails.  A failing command leaves
/// the storage contents exactly as they were.
pub open spec fn step(
    pre: Option<StateView>,
    sender: Seq<char>,
    msg: HandleMsg,
) -> (Option<StateView>, Option<ContractError>) {
    match pre {
        None => (pre, Some(ContractError::NotInitialized)),
        Some(state) => match msg {
            HandleMsg::Increase { value } => (Some(increased(state, value)), None),
            HandleMsg::Decrease { value } => (Some(decreased(state, value)), None),
            HandleMsg::Reset { count } => if reset_allowed(state, sender) {
                (Some(reset_state(state, count)), None)
            } else {
                (pre, Some(ContractError::Unauthorized))
            },
        },
    }
}

/// Initializes the contract: stores the given counter value and records
/// the caller as owner.  Initialization always succeeds; running it at
/// most once per contract instance is the host environment's concern.
pub fn init(storage: &mut Storage, sender: &str, msg: InitMsg) -> (r: Result<
    InitResponse,
    ContractError,
>)
    ensures
        r == Ok::<InitResponse, ContractError>(InitResponse {}),
        final(storage)@ == Some(initialized(msg.count, sender@)),
{
    let state = State { count: msg.count, owner: sender.to_owned() };
    storage.record = Some(state);
    Ok(InitResponse::default())
}

/// Dispatches a mutating command.  The new storage contents and the
/// outcome are exactly those of [`step`].
pub fn handle(storage: &mut Storage, sender: &str, msg: HandleMsg) -> (r: Result<
    HandleResponse,
    ContractError,
>)
    ensures
        final(storage)@ == step(old(storage)@, sender@, msg).0,
        (match step(old(storage)@, sender@, msg).1 {
            None => r == Ok::<HandleResponse, ContractError>(HandleResponse {}),
            Some(e) => r == Err::<HandleResponse, ContractError>(e),
        }),
{
    match msg {
        HandleMsg::Increase { value } => try_increase(storage, sender, value),
        HandleMsg::Decrease { value } => try_decrease(storage, sender, value),
        HandleMsg::Reset { count } => try_reset(storage, sender, count),
    }
}

/// Adds `value` to the stored counter, wrapping on overflow.  Any caller
/// may increase; the command fails only on an uninitialized contract.
pub fn try_increase(storage: &mut Storage, _sender: &str, value: i32) -> (r: Result<
    HandleResponse,
    ContractError,
>)
    ensures
        old(storage)@ is None ==> r == Err::<HandleResponse, ContractError>(
            ContractError::NotInitialized,
        ) && *final(storage) == *old(storage),
        old(storage)@ matches Some(state) ==> r == Ok::<HandleResponse, ContractError>(
            HandleResponse {},
        ) && final(storage)@ == Some(increased(state, value)),
{
    match &mut storage.record {
        None => Err(ContractError::NotInitialized),
        Some(state) => {
            state.count = state.count.wrapping_add(value);
            Ok(HandleResponse::default())
        },
    }
}

/// Subtracts `value` from the stored counter, wrapping on overflow.  Any
/// caller may decrease; the command fails only on an uninitialized
/// contract.
pub fn try_decrease(storage: &mut Storage, _sender: &str, value: i32) -> (r: Result<
    HandleResponse,
    ContractError,
>)
    ensures
        old(storage)@ is None ==> r == Err::<HandleResponse, ContractError>(
            ContractError::NotInitialized,
        ) && *final(storage) == *old(storage),
        old(storage)@ matches Some(state) ==> r == Ok::<HandleResponse, ContractError>(
            HandleResponse {},
        ) && final(storage)@ == Some(decreased(state, value)),
{
    match &mut storage.record {
        None => Err(ContractError::NotInitialized),
        Some(state) => {
            state.count = state.count.wrapping_sub(value);
            Ok(HandleResponse::default())
        },
    }
}

/// Overwrites the stored counter with `count`, provided the caller is the
/// owner recorded at initialization.  A reset by anyone else fails with
/// `Unauthorized` and leaves the stored record exactly as it was.
pub fn try_reset(storage: &mut Storage, sender: &str, count: i32) -> (r: Result<
    HandleResponse,
    ContractError,
>)
    ensures
        old(storage)@ is None ==> r == Err::<HandleResponse, ContractError>(
            ContractError::NotInitialized,
        ) && *final(storage) == *old(storage),
        old(storage)@ matches Some(state) ==> (if reset_allowed(state, sender@) {
            r == Ok::<HandleResponse, ContractError>(HandleResponse {}) && final(storage)@
                == Some(reset_state(state, count))
        } else {
            r == Err::<HandleResponse, ContractError>(ContractError::Unauthorized)
                && *final(storage) == *old(storage)
        }),
{
    match &storage.record {
        None => Err(ContractError::NotInitialized),
        Some(state) => {
            if sender.to_owned() == state.owner {
                let updated = State { count, owner: state.owner.clone() };
                storage.record = Some(updated);
                Ok(HandleResponse::default())
            } else {
                Err(ContractError::Unauthorized)
            }
        },
    }
}

/// Dispatches a read-only query.  The contract's one query asks for the
/// counter's parity.
pub fn query(storage: &Storage, msg: QueryMsg) -> (r: Result<String, ContractError>)
    ensures
        storage@ is None ==> r == Err::<String, ContractError>(ContractError::NotInitialized),
        storage@ matches Some(state) ==> (r matches Ok(answer) && answer@ == query_answer(state)),
{
    match msg {
        QueryMsg::QueryEvenOdd {} => query_even_odd(storage),
    }
}

/// Answers the parity query: `"Even Number: <count>"` when the stored
/// counter is even, `"Odd Number: <count>"` otherwise.  Fails only on an
/// uninitialized contract.
pub fn query_even_odd(storage: &Storage) -> (r: Result<String, ContractError>)
    ensures
        storage@ is None ==> r == Err::<String, ContractError>(ContractError::NotInitialized),
        storage@ matches Some(state) ==> (r matches Ok(answer) && answer@ == query_answer(state)),
{
    match &storage.record {
        None => Err(ContractError::NotInitialized),
        Some(state) => Ok(render_even_odd(state.count)),
    }
}

/// Law: the owner is set exactly once, at initialization, and no command
/// ever changes it: once the contract holds a record, every step leaves a
/// record with the same owner.
pub proof fn lemma_owner_never_changes(pre: Option<StateView>, sender: Seq<char>, msg: HandleMsg)
    requires
        pre is Some,
    ensures
        step(pre, sender, msg).0 matches Some(post) && post.owner == pre.unwrap().owner,
{
}

/// Law: every error is terminal for the invocation: a failing command
/// leaves the storage contents exactly as they were.
pub proof fn lemma_error_leaves_state_unchanged(
    pre: Option<StateView>,
    sender: Seq<char>,
    msg: HandleMsg,
)
    ensures
        step(pre, sender, msg).1 is Some ==> step(pre, sender, msg).0 == pre,
{
}

/// Law: initializing with `count` and then querying the parity yields
/// `"Even Number: <count>"` when `count` is even and `"Odd Number: <count>"`
/// when it is odd, where `<count>` is the decimal rendering of `count`.
pub proof fn lemma_init_then_query(count: i32, sender: Seq<char>)
    ensures
        count as int % 2 == 0 ==> query_answer(initialized(count, sender)) == "Even Number: "@
            + dec_string(count as int),
        count as int % 2 != 0 ==> query_answer(initialized(count, sender)) == "Odd Number: "@
            + dec_string(count as int),
{
}

/// Law: after initialization with `count`, `Increase { value }` stores
/// exactly `count + value` and leaves the owner untouched, whenever that
/// sum fits the counter's range (outside it, the counter wraps instead).
pub proof fn lemma_init_then_increase(count: i32, value: i32, sender: Seq<char>)
    requires
        i32::MIN <= count + value <= i32::MAX,
    ensures
        increased(initialized(count, sender), value) == initialized((count + value) as i32, sender),
{
}

/// Law: after initialization with `count`, `Decrease { value }` stores
/// exactly `count - value` and leaves the owner untouched, whenever that
/// difference fits the counter's range (outside it, the counter wraps
/// instead).
pub proof fn lemma_init_then_decrease(count: i32, value: i32, sender: Seq<char>)
    requires
        i32::MIN <= count - value <= i32::MAX,
    ensures
        decreased(initialized(count, sender), value) == initialized((count - value) as i32, sender),
{
}

} // verus!
