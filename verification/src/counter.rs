//! A counter in the update-function style: a model owns an integer count and
//! folds messages into it with a pure step function.
//!
//! The count wraps around at the `i32` boundary, so every message can be
//! applied to every model value.

use crate::tea::{Command, Message, TeaModel};
use vstd::prelude::*;

verus! {

/// A message the counter model understands.
#[derive(Clone, Copy, Debug, PartialEq, Eq, Structural)]
pub enum CounterMsg {
    /// Raise the count by one.
    Increment,
    /// Lower the count by one.
    Decrement,
    /// Return the count to zero.
    Reset,
    /// Replace the count with the given value.
    SetTo { value: i32 },
}

/// The snapshot a counter model exposes to its readers.
#[derive(Clone, Copy, Debug, PartialEq, Eq, Structural)]
pub struct CounterState {
    /// The current count.
    pub count: i32,
}

/// The counter model itself: the owned state of the counter discipline.
#[derive(Clone, Copy, Debug, PartialEq, Eq, Structural)]
pub struct CounterModel {
    /// The current count.
    pub count: i32,
}

/// The count after one message, wrapping at the `i32` boundary.
pub open spec fn counter_count_step(count: i32, msg: CounterMsg) -> i32 {
    match msg {
        CounterMsg::Increment => if count == i32::MAX { i32::MIN } else { (count + 1) as i32 },
        CounterMsg::Decrement => if count == i32::MIN { i32::MAX } else { (count - 1) as i32 },
        CounterMsg::Reset => 0,
        CounterMsg::SetTo { value } => value,
    }
}

/// The model after one message.
pub open spec fn counter_step(model: CounterModel, msg: CounterMsg) -> CounterModel {
    CounterModel { count: counter_count_step(model.count, msg) }
}

/// The model after a whole sequence of messages, first message first: the
/// reference fold against which dispatch paths are measured.
pub open spec fn counter_run(model: CounterModel, msgs: Seq<CounterMsg>) -> CounterModel
    decreases msgs.len(),
{
    if msgs.len() == 0 {
        model
    } else {
        counter_run(counter_step(model, msgs[0]), msgs.drop_first())
    }
}

impl Message for CounterMsg {

}

impl TeaModel for CounterModel {
    type State = CounterState;

    type Msg = CounterMsg;

    open spec fn spec_init() -> (Self, Command<CounterMsg>) {
        (CounterModel { count: 0 }, Command::Nothing)
    }

    open spec fn spec_update(self, msg: CounterMsg) -> (Self, Command<CounterMsg>) {
        (counter_step(self, msg), Command::Nothing)
    }

    open spec fn state_matches(&self, s: &CounterState) -> bool {
        *s == (CounterState { count: self.count })
    }

    /// The model every counter starts from, with no initial side effect.
    fn init() -> (r: (Self, Command<CounterMsg>))
        ensures
            r == Self::spec_init(),
            r.0 == (CounterModel { count: 0 }),
    {
        (CounterModel { count: 0 }, Command::Nothing)
    }

    /// Folds one message into the model; the returned command never asks
    /// for a side effect.
    fn update(&mut self, msg: CounterMsg) -> (c: Command<CounterMsg>)
        ensures
            (*final(self), c) == old(self).spec_update(msg),
            *final(self) == counter_step(*old(self), msg),
    {
        match msg {
            CounterMsg::Increment => {
                self.count = if self.count == i32::MAX { i32::MIN } else { self.count + 1 };
            }
            CounterMsg::Decrement => {
                self.count = if self.count == i32::MIN { i32::MAX } else { self.count - 1 };
            }
            CounterMsg::Reset => {
                self.count = 0;
            }
            CounterMsg::SetTo { value } => {
                self.count = value;
            }
        }
        Command::Nothing
    }

    /// A snapshot of the current state.
    fn state(&self) -> (s: CounterState)
        ensures
            self.state_matches(&s),
            s == (CounterState { count: self.count }),
    {
        CounterState { count: self.count }
    }
}

impl CounterModel {
    /// Folds a whole sequence of messages into the model, first element
    /// first: the reference implementation of replaying a message history.
    pub fn update_all(&mut self, msgs: &Vec<CounterMsg>)
        ensures
            *final(self) == counter_run(*old(self), msgs@),
    {
        let n = msgs.len();
        let mut i: usize = 0;
        proof {
            assert(msgs@.skip(0) =~= msgs@);
        }
        while i < n
            invariant
                i <= n,
                n == msgs@.len(),
                counter_run(*self, msgs@.skip(i as int)) == counter_run(*old(self), msgs@),
            decreases n - i,
        {
            proof {
                assert(msgs@.skip(i as int).drop_first() =~= msgs@.skip(i as int + 1));
            }
            let _c = self.update(msgs[i]);
            i = i + 1;
        }
        proof {
            assert(msgs@.skip(n as int) =~= Seq::<CounterMsg>::empty());
        }
    }
}

} // verus!
