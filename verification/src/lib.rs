//! A unified state-dispatch runtime in which two state-update disciplines —
//! an update-function style driven by messages and a reducer style driven by
//! actions — share one registry of state slots, one event bus, and one
//! middleware chain.
//!
//! The payload universe is closed: every message and action kind the runtime
//! routes is a variant of a tagged union, so dispatch is an ordinary match on
//! tags rather than an open-ended lookup by runtime type identity.  The
//! concrete disciplines shipped here are a counter model (update-function
//! style) and a todo-list store (reducer style), together with probe payloads
//! that make the delivery pipeline itself observable.
//!
//! Every operation of the dispatcher, the container and the handles carries a
//! contract that pins its effect on an observable state: the two slots plus a
//! log of middleware and probe activity.

pub mod container;
pub mod counter;
pub mod dispatcher;
pub mod event;
pub mod flux;
pub mod laws;
pub mod payload;
pub mod runtime;
pub mod tea;
pub mod todo;
