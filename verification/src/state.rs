//! The persisted state of the contract and the storage slot it lives in.

use vstd::prelude::*;

verus! {

/// The single persisted record: the counter and the identity of the
/// caller that initialized the contract.
pub struct State {
    pub count: i32,
    pub owner: String,
}

/// Mathematical view of a [`State`]: the counter value together with the
/// owner identity as a sequence of characters.
pub struct StateView {
    pub count: i32,
    pub owner: Seq<char>,
}

impl View for State {
    type V = StateView;

    open spec fn view(&self) -> StateView {
        StateView { count: self.count, owner: self.owner@ }
    }
}

/// The contract's storage slot, injected by the host environment on every
/// call.  It is empty until `init` has run and holds the record afterwards.
pub struct Storage {
    pub record: Option<State>,
}

impl View for Storage {
    type V = Option<StateView>;

    open spec fn view(&self) -> Option<StateView> {
        match self.record {
            Some(state) => Some(state@),
            None => None,
        }
    }
}

impl Storage {
    /// Fresh storage for a contract instance that has not been initialized.
    pub fn new() -> (storage: Storage)
        ensures
            storage@ is None,
    {
        Storage { record: None }
    }
}

} // verus!
