//! The reducer discipline: stores and actions.
//!
//! A store owns state and changes it only by reducing actions into it;
//! there is no side-effect descriptor in this discipline.

use vstd::prelude::*;

verus! {

/// An action of the reducer discipline.
pub trait Action: Sized {
    /// The action type's tag, as a sequence of characters.
    spec fn spec_action_type(&self) -> Seq<char>;

    /// A stable tag naming the action type, for diagnostics.
    fn action_type(&self) -> (r: &'static str)
        ensures
            r@ == self.spec_action_type(),
    ;
}

/// A store of the reducer discipline.
///
/// The two spec predicates pin the discipline: what counts as a faithful
/// snapshot, and what one reduction step does.  The executable methods are
/// required to satisfy them, and an implementation states its exact step
/// function as additional postconditions.
pub trait FluxStore: Sized {
    /// The snapshot type the store exposes to readers.
    type State;

    /// The action type the store reduces.
    type Action: Action;

    /// Holds where `s` is a faithful snapshot of the store's state.
    spec fn state_matches(&self, s: &Self::State) -> bool;

    /// Holds where `post` is `pre` after absorbing one action.
    spec fn reduces_to(pre: Self, a: &Self::Action, post: Self) -> bool;

    /// A snapshot of the current state.
    fn state(&self) -> (s: Self::State)
        ensures
            self.state_matches(&s),
    ;

    /// Reduces one action into the state: the only way the state changes.
    fn reduce(&mut self, a: &Self::Action)
        ensures
            Self::reduces_to(*old(self), a, *final(self)),
    ;
}

} // verus!
