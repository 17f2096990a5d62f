//! The closed payload universe of the runtime.
//!
//! A message payload is delivered to update-function-style handlers, an
//! action payload to reducer-style handlers.  Each payload carries a kind
//! tag, and the dispatcher keeps one handler table per kind; the tag plays
//! the role that runtime type identity plays in an open registry.
//!
//! Besides the counter messages and todo actions of the two shipped
//! disciplines, the universe holds probe and step payloads that carry no
//! domain state; they exist so that delivery itself — which handlers fire,
//! and in what order — can be observed and tested.

use crate::counter::CounterMsg;
use crate::flux::Action;
use crate::tea::Message;
use crate::todo::TodoAction;
use vstd::prelude::*;

verus! {

/// A probe message: plain data for exercising the message delivery path.
#[derive(Clone, Copy, Debug, PartialEq, Eq, Structural)]
pub struct ProbeMsg {
    /// The carried value.
    pub value: i32,
}

/// A probe action: plain data for exercising the action delivery path.
#[derive(Clone, Copy, Debug, PartialEq, Eq, Structural)]
pub struct ProbeAction {
    /// The carried value.
    pub value: i32,
}

/// A step message: the message projection of a step event.
#[derive(Clone, Copy, Debug, PartialEq, Eq, Structural)]
pub enum StepMsg {
    /// A step up.
    Increment,
    /// A step down.
    Decrement,
}

/// A step action: the action projection of a step event.
#[derive(Clone, Copy, Debug, PartialEq, Eq, Structural)]
pub enum StepAction {
    /// A step up.
    Increment,
    /// A step down.
    Decrement,
}

/// The kind tag of a message payload: the key of the message handler table.
#[derive(Clone, Copy, Debug, PartialEq, Eq, Hash, Structural)]
pub enum MsgKind {
    /// Counter messages.
    Counter,
    /// Probe messages.
    Probe,
    /// Step messages.
    Step,
}

/// The kind tag of an action payload: the key of the action handler table.
#[derive(Clone, Copy, Debug, PartialEq, Eq, Hash, Structural)]
pub enum ActKind {
    /// Todo actions.
    Todo,
    /// Probe actions.
    Probe,
    /// Step actions.
    Step,
}

/// A message payload: one concrete message of the closed universe.
#[derive(Clone, Copy, Debug, PartialEq, Eq, Structural)]
pub enum MsgPayload {
    /// A message for the counter model.
    Counter(CounterMsg),
    /// A probe message.
    Probe(ProbeMsg),
    /// A step message.
    Step(StepMsg),
}

/// An action payload: one concrete action of the closed universe.
#[derive(Debug, PartialEq, Eq)]
pub enum ActPayload {
    /// An action for the todo store.
    Todo(TodoAction),
    /// A probe action.
    Probe(ProbeAction),
    /// A step action.
    Step(StepAction),
}

impl Clone for ActPayload {
    /// An exact copy: the clone is equal to the original.
    fn clone(&self) -> (r: Self)
        ensures
            r == *self,
    {
        match self {
            ActPayload::Todo(a) => ActPayload::Todo(a.clone()),
            ActPayload::Probe(a) => ActPayload::Probe(*a),
            ActPayload::Step(a) => ActPayload::Step(*a),
        }
    }
}

impl Message for ProbeMsg {

}

impl Message for StepMsg {

}

impl Action for ProbeAction {
    open spec fn spec_action_type(&self) -> Seq<char> {
        "ProbeAction"@
    }

    fn action_type(&self) -> (r: &'static str)
        ensures
            r@ == self.spec_action_type(),
    {
        "ProbeAction"
    }
}

impl Action for StepAction {
    open spec fn spec_action_type(&self) -> Seq<char> {
        "StepAction"@
    }

    fn action_type(&self) -> (r: &'static str)
        ensures
            r@ == self.spec_action_type(),
    {
        "StepAction"
    }
}

impl MsgPayload {
    /// The kind tag of this message payload.
    pub open spec fn spec_kind(self) -> MsgKind {
        match self {
            MsgPayload::Counter(_) => MsgKind::Counter,
            MsgPayload::Probe(_) => MsgKind::Probe,
            MsgPayload::Step(_) => MsgKind::Step,
        }
    }

    /// The kind tag of this message payload.
    pub fn kind(&self) -> (k: MsgKind)
        ensures
            k == self.spec_kind(),
    {
        match self {
            MsgPayload::Counter(_) => MsgKind::Counter,
            MsgPayload::Probe(_) => MsgKind::Probe,
            MsgPayload::Step(_) => MsgKind::Step,
        }
    }
}

impl ActPayload {
    /// The kind tag of this action payload.
    pub open spec fn spec_kind(self) -> ActKind {
        match self {
            ActPayload::Todo(_) => ActKind::Todo,
            ActPayload::Probe(_) => ActKind::Probe,
            ActPayload::Step(_) => ActKind::Step,
        }
    }

    /// The kind tag of this action payload.
    pub fn kind(&self) -> (k: ActKind)
        ensures
            k == self.spec_kind(),
    {
        match self {
            ActPayload::Todo(_) => ActKind::Todo,
            ActPayload::Probe(_) => ActKind::Probe,
            ActPayload::Step(_) => ActKind::Step,
        }
    }
}

} // verus!
