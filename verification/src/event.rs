//! Events and their projections.
//!
//! An event is a value that names itself with a type tag and can project
//! itself into a message payload and/or an action payload.  Both projections
//! are pure, total functions of the event's own data; an event need not
//! support either, in which case dispatching it runs the middleware hooks
//! and delivers nothing.

use crate::counter::CounterMsg;
use crate::payload::{ActPayload, MsgPayload, ProbeAction, ProbeMsg, StepAction, StepMsg};
use crate::todo::TodoAction;
use vstd::prelude::*;

verus! {

/// The closed set of event types: the tag a middleware hook is handed as
/// its read-only view of the event being dispatched.
#[derive(Clone, Copy, Debug, PartialEq, Eq, Hash, Structural)]
pub enum EventKind {
    /// A counter event.
    Counter,
    /// A todo event.
    Todo,
    /// A step event.
    Step,
    /// A probe event.
    Probe,
    /// A pulse event.
    Pulse,
}

/// An event the dispatcher can route.
///
/// The two spec functions are the mathematical projections; the executable
/// methods are required to agree with them exactly, so every implementation
/// has projections that are pure and total by construction.
pub trait Event: Sized {
    /// The event's type tag, as a sequence of characters.
    spec fn spec_event_type(&self) -> Seq<char>;

    /// The event's kind: the tag middleware hooks observe.
    spec fn spec_kind(&self) -> EventKind;

    /// The message projection, if the event supports one.
    spec fn spec_message(&self) -> Option<MsgPayload>;

    /// The action projection, if the event supports one.
    spec fn spec_action(&self) -> Option<ActPayload>;

    /// A stable type tag for diagnostics and middleware.
    fn event_type(&self) -> (r: &'static str)
        ensures
            r@ == self.spec_event_type(),
    ;

    /// The event's kind: the tag middleware hooks observe.
    fn kind(&self) -> (k: EventKind)
        ensures
            k == self.spec_kind(),
    ;

    /// Converts the event to a message payload, if it supports one.
    fn as_message(&self) -> (r: Option<MsgPayload>)
        ensures
            r == self.spec_message(),
    ;

    /// Converts the event to an action payload, if it supports one.
    fn as_action(&self) -> (r: Option<ActPayload>)
        ensures
            r == self.spec_action(),
    ;
}

/// An event carrying one counter message; it projects to that message and
/// to no action.
#[derive(Clone, Copy, Debug, PartialEq, Eq, Structural)]
pub struct CounterEvent {
    /// The carried message.
    pub msg: CounterMsg,
}

impl Event for CounterEvent {
    open spec fn spec_event_type(&self) -> Seq<char> {
        "CounterEvent"@
    }

    open spec fn spec_kind(&self) -> EventKind {
        EventKind::Counter
    }

    open spec fn spec_message(&self) -> Option<MsgPayload> {
        Some(MsgPayload::Counter(self.msg))
    }

    open spec fn spec_action(&self) -> Option<ActPayload> {
        None
    }

    fn event_type(&self) -> (r: &'static str)
        ensures
            r@ == self.spec_event_type(),
    {
        "CounterEvent"
    }

    fn kind(&self) -> (k: EventKind)
        ensures
            k == self.spec_kind(),
    {
        EventKind::Counter
    }

    fn as_message(&self) -> (r: Option<MsgPayload>)
        ensures
            r == self.spec_message(),
    {
        Some(MsgPayload::Counter(self.msg))
    }

    fn as_action(&self) -> (r: Option<ActPayload>)
        ensures
            r == self.spec_action(),
    {
        None
    }
}

/// An event carrying one todo action; it projects to that action and to no
/// message.
#[derive(Clone, Debug, PartialEq, Eq)]
pub struct TodoEvent {
    /// The carried action.
    pub action: TodoAction,
}

impl Event for TodoEvent {
    open spec fn spec_event_type(&self) -> Seq<char> {
        "TodoEvent"@
    }

    open spec fn spec_kind(&self) -> EventKind {
        EventKind::Todo
    }

    open spec fn spec_message(&self) -> Option<MsgPayload> {
        None
    }

    open spec fn spec_action(&self) -> Option<ActPayload> {
        Some(ActPayload::Todo(self.action))
    }

    fn event_type(&self) -> (r: &'static str)
        ensures
            r@ == self.spec_event_type(),
    {
        "TodoEvent"
    }

    fn kind(&self) -> (k: EventKind)
        ensures
            k == self.spec_kind(),
    {
        EventKind::Todo
    }

    fn as_message(&self) -> (r: Option<MsgPayload>)
        ensures
            r == self.spec_message(),
    {
        None
    }

    fn as_action(&self) -> (r: Option<ActPayload>)
        ensures
            r == self.spec_action(),
    {
        Some(ActPayload::Todo(self.action.clone()))
    }
}

/// An event with both projections: a step up or down becomes the step
/// message and the step action of the same direction.
#[derive(Clone, Copy, Debug, PartialEq, Eq, Structural)]
pub enum StepEvent {
    /// A step up.
    Increment,
    /// A step down.
    Decrement,
}

impl Event for StepEvent {
    open spec fn spec_event_type(&self) -> Seq<char> {
        "StepEvent"@
    }

    open spec fn spec_kind(&self) -> EventKind {
        EventKind::Step
    }

    open spec fn spec_message(&self) -> Option<MsgPayload> {
        match self {
            StepEvent::Increment => Some(MsgPayload::Step(StepMsg::Increment)),
            StepEvent::Decrement => Some(MsgPayload::Step(StepMsg::Decrement)),
        }
    }

    open spec fn spec_action(&self) -> Option<ActPayload> {
        match self {
            StepEvent::Increment => Some(ActPayload::Step(StepAction::Increment)),
            StepEvent::Decrement => Some(ActPayload::Step(StepAction::Decrement)),
        }
    }

    fn event_type(&self) -> (r: &'static str)
        ensures
            r@ == self.spec_event_type(),
    {
        "StepEvent"
    }

    fn kind(&self) -> (k: EventKind)
        ensures
            k == self.spec_kind(),
    {
        EventKind::Step
    }

    fn as_message(&self) -> (r: Option<MsgPayload>)
        ensures
            r == self.spec_message(),
    {
        match self {
            StepEvent::Increment => Some(MsgPayload::Step(StepMsg::Increment)),
            StepEvent::Decrement => Some(MsgPayload::Step(StepMsg::Decrement)),
        }
    }

    fn as_action(&self) -> (r: Option<ActPayload>)
        ensures
            r == self.spec_action(),
    {
        match self {
            StepEvent::Increment => Some(ActPayload::Step(StepAction::Increment)),
            StepEvent::Decrement => Some(ActPayload::Step(StepAction::Decrement)),
        }
    }
}

/// An event carrying a plain value into both probe payloads.
#[derive(Clone, Copy, Debug, PartialEq, Eq, Structural)]
pub struct ProbeEvent {
    /// The carried value.
    pub value: i32,
}

impl Event for ProbeEvent {
    open spec fn spec_event_type(&self) -> Seq<char> {
        "ProbeEvent"@
    }

    open spec fn spec_kind(&self) -> EventKind {
        EventKind::Probe
    }

    open spec fn spec_message(&self) -> Option<MsgPayload> {
        Some(MsgPayload::Probe(ProbeMsg { value: self.value }))
    }

    open spec fn spec_action(&self) -> Option<ActPayload> {
        Some(ActPayload::Probe(ProbeAction { value: self.value }))
    }

    fn event_type(&self) -> (r: &'static str)
        ensures
            r@ == self.spec_event_type(),
    {
        "ProbeEvent"
    }

    fn kind(&self) -> (k: EventKind)
        ensures
            k == self.spec_kind(),
    {
        EventKind::Probe
    }

    fn as_message(&self) -> (r: Option<MsgPayload>)
        ensures
            r == self.spec_message(),
    {
        Some(MsgPayload::Probe(ProbeMsg { value: self.value }))
    }

    fn as_action(&self) -> (r: Option<ActPayload>)
        ensures
            r == self.spec_action(),
    {
        Some(ActPayload::Probe(ProbeAction { value: self.value }))
    }
}

/// An event with no projection at all: dispatching it exercises the
/// middleware chain and delivers to no handler table.
#[derive(Clone, Copy, Debug, PartialEq, Eq, Structural)]
pub struct PulseEvent;

impl Event for PulseEvent {
    open spec fn spec_event_type(&self) -> Seq<char> {
        "PulseEvent"@
    }

    open spec fn spec_kind(&self) -> EventKind {
        EventKind::Pulse
    }

    open spec fn spec_message(&self) -> Option<MsgPayload> {
        None
    }

    open spec fn spec_action(&self) -> Option<ActPayload> {
        None
    }

    fn event_type(&self) -> (r: &'static str)
        ensures
            r@ == self.spec_event_type(),
    {
        "PulseEvent"
    }

    fn kind(&self) -> (k: EventKind)
        ensures
            k == self.spec_kind(),
    {
        EventKind::Pulse
    }

    fn as_message(&self) -> (r: Option<MsgPayload>)
        ensures
            r == self.spec_message(),
    {
        None
    }

    fn as_action(&self) -> (r: Option<ActPayload>)
        ensures
            r == self.spec_action(),
    {
        None
    }
}

} // verus!
