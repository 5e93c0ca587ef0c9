//! A state machine as a contract between types.
//!
//! Every state is a type of its own, and so is every action. A transition
//! rule is an impl of [`Receive`]: the state type implements it, the action
//! type is the trait's parameter, and the associated type `NewState` names
//! the successor. The value of the successor comes from the `From` impl
//! between the two state types, so a conversion that is written once serves
//! every action that leads from the one state to the other.
//!
//! ```text
//! struct Opened;
//! struct Shut;
//! struct Push;
//!
//! impl From<Opened> for Shut {
//!     fn from(_: Opened) -> Self {
//!         Shut
//!     }
//! }
//!
//! impl Receive<Push> for Opened {
//!     type NewState = Shut;
//! }
//!
//! let door: Shut = Opened.act(Push);
//! ```
//!
//! A pair of state and action without a rule has no `act`, so a transition
//! that was not declared does not compile. `act` takes the state by value:
//! the state that was left cannot be used again.
//!
//! The module [`laws`] holds what is proved of every rule.
pub mod laws;
mod state;

pub use state::Receive;
