//! What holds of every transition rule, proved from the contract of
//! [`Receive::act`].
//!
//! A call of `act` is spoken of through `call_requires` and `call_ensures`:
//! the first says that the call may be made, the second that a value is one
//! that the call may return.
use crate::state::Receive;
use vstd::prelude::*;
use vstd::std_specs::convert::FromSpec;

verus! {

/// Every declared transition can be taken: `act` asks nothing of the state
/// or of the action that it is handed.
pub proof fn lemma_act_total<Action, State: Receive<Action>>(state: State, action: Action)
    ensures
        call_requires(<State as Receive<Action>>::act, (state, action)),
{
}

/// Equal states under equal actions have equal successors, wherever the
/// conversion between the two state types follows its `from_spec`.
pub proof fn lemma_act_deterministic<Action, State: Receive<Action>>(
    first_state: State,
    first_action: Action,
    first_next: State::NewState,
    second_state: State,
    second_action: Action,
    second_next: State::NewState,
)
    requires
        <State::NewState as FromSpec<State>>::obeys_from_spec(),
        first_state == second_state,
        first_action == second_action,
        call_ensures(<State as Receive<Action>>::act, (first_state, first_action), first_next),
        call_ensures(<State as Receive<Action>>::act, (second_state, second_action), second_next),
    ensures
        first_next == second_next,
{
}

/// One conversion shared by the rules of two actions: each action gives a
/// successor that the conversion alone can give on the same state, and where
/// the conversion follows its `from_spec`, both successors equal what the
/// conversion gives when it is called directly.
pub proof fn lemma_shared_conversion<First, Second, State, Next>(
    state: State,
    first: First,
    second: Second,
    by_first: Next,
    by_second: Next,
    direct: Next,
) where
    State: Receive<First, NewState = Next> + Receive<Second, NewState = Next>,
    Next: From<State>,

    requires
        call_ensures(<State as Receive<First>>::act, (state, first), by_first),
        call_ensures(<State as Receive<Second>>::act, (state, second), by_second),
        call_ensures(<Next as From<State>>::from, (state,), direct),
    ensures
        call_ensures(<Next as From<State>>::from, (state,), by_first),
        call_ensures(<Next as From<State>>::from, (state,), by_second),
        <Next as FromSpec<State>>::obeys_from_spec() ==> by_first == direct && by_second == direct
            && direct == <Next as FromSpec<State>>::from_spec(state),
{
}

} // verus!
