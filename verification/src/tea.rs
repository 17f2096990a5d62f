//! The update-function discipline: models, messages, commands.
//!
//! A model owns state and folds messages into it; each update may also name
//! a side-effect command.  The runtime currently discards returned
//! commands — the descriptor exists so that the update contract has the
//! shape of the discipline, not because anything executes it.

use vstd::prelude::*;

verus! {

/// A message of the update-function discipline: a marker for the payload
/// types a model can fold.
pub trait Message: Sized {

}

/// A side-effect descriptor returned by an update.
///
/// The dispatch paths of this runtime discard every returned command; the
/// type records what an update asked for, nothing runs it.
#[derive(Clone, Copy, Debug, PartialEq, Eq, Structural)]
pub enum Command<Msg> {
    /// No side effect.
    Nothing,
    /// Ask for this message to be delivered later.
    Emit(Msg),
}

/// A model of the update-function discipline.
///
/// The two spec functions pin the discipline mathematically; the executable
/// methods are required to agree with them, so every implementation's
/// update is a pure fold over its message history.
pub trait TeaModel: Sized {
    /// The snapshot type the model exposes to readers.
    type State;

    /// The message type the model folds.
    type Msg: Message;

    /// The model and initial command a fresh instance starts from.
    spec fn spec_init() -> (Self, Command<Self::Msg>);

    /// The model and side-effect command after one message.
    spec fn spec_update(self, msg: Self::Msg) -> (Self, Command<Self::Msg>);

    /// Holds where `s` is a faithful snapshot of the model's state.
    spec fn state_matches(&self, s: &Self::State) -> bool;

    /// The initial model and its initial command.
    fn init() -> (r: (Self, Command<Self::Msg>))
        ensures
            r == Self::spec_init(),
    ;

    /// Folds one message into the model and returns the side-effect
    /// command the update asked for.
    fn update(&mut self, msg: Self::Msg) -> (c: Command<Self::Msg>)
        ensures
            (*final(self), c) == old(self).spec_update(msg),
    ;

    /// A snapshot of the current state.
    fn state(&self) -> (s: Self::State)
        ensures
            self.state_matches(&s),
    ;
}

} // verus!
