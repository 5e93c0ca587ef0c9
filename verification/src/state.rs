//! The transition rule and the operation that takes it.
use vstd::prelude::*;
use vstd::std_specs::convert::FromSpec;

verus! {

/// A transition rule: the state `Self` receives an `Action` and becomes a
/// `NewState`.
///
/// A state type has at most one impl for a given action type, so the pair
/// of state and action decides the successor type. An impl needs to name
/// that type and nothing more: the provided `act` builds the successor with
/// `NewState::from`. An impl that writes `act` itself is held to the same
/// contract.
pub trait Receive<Action> where
    Self: Into<<Self as Receive<Action>>::NewState>,
    <Self as Receive<Action>>::NewState: From<Self>,
 {
    /// The state that follows `Self` under `Action`.
    type NewState;

    /// Takes the transition: consumes the state and the action and returns
    /// the successor.
    ///
    /// The successor is a value that `NewState::from` returns for the state
    /// that was consumed. Where that conversion follows its `from_spec`, the
    /// successor is exactly `from_spec` of the state. What the action holds
    /// has no part in it.
    fn act(self, _action: Action) -> (next: Self::NewState)
        ensures
            call_ensures(<Self::NewState as From<Self>>::from, (self,), next),
            <Self::NewState as FromSpec<Self>>::obeys_from_spec() ==> next
                == <Self::NewState as FromSpec<Self>>::from_spec(self),
    {
        <Self::NewState as From<Self>>::from(self)
    }
}

} // verus!
