//! What the two traced operations compute, apart from the spans around
//! them: a sum, and the steps of a pause followed by one event.

use vstd::prelude::*;

verus! {

/// The severity of an event.
#[derive(Clone, Copy, Debug, PartialEq, Eq, Structural)]
pub enum Level {
    Trace,
    Debug,
    Info,
    Warn,
    Error,
}

/// One step of a traced operation, for the caller to carry out.
#[derive(Clone, Copy, Debug, PartialEq, Eq)]
pub enum Action {
    /// Suspend for this many milliseconds.
    Sleep { millis: u64 },
    /// Emit one event at `level` that carries `message`.
    Emit { level: Level, message: &'static str },
}

/// The sum of `a` and `b`.
///
/// The caller opens the span around the call; the sum must fit in a `u32`.
pub fn trace_me(a: u32, b: u32) -> (sum: u32)
    requires
        a + b <= u32::MAX,
    ensures
        sum == a + b,
{
    a + b
}

/// The steps of `foo`: a pause of `duration` milliseconds, then a single
/// informational event.
pub open spec fn foo_steps(duration: u64) -> Seq<Action> {
    seq![
        Action::Sleep { millis: duration },
        Action::Emit { level: Level::Info, message: "Inside foo" },
    ]
}

/// The steps to carry out, in order, under one span; once they are done the
/// operation has succeeded. No step can fail.
pub fn foo(duration: u64) -> (steps: Vec<Action>)
    ensures
        steps@ == foo_steps(duration),
{
    let mut steps: Vec<Action> = Vec::new();
    steps.push(Action::Sleep { millis: duration });
    steps.push(Action::Emit { level: Level::Info, message: "Inside foo" });
    steps
}

} // verus!
