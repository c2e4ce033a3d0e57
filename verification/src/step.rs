//! The ordered actions the shell asks the UI runtime to perform.
//!
//! Event handlers return a sequence of steps instead of performing side
//! effects themselves; the runtime executes the steps in order.  The spec
//! functions here fold a step sequence over the relevant part of the
//! world: window visibility, stop requests delivered to the backend, and
//! application termination.

use vstd::prelude::*;
use crate::process::ProcessHandle;

verus! {

/// One action the UI runtime must perform on the shell's behalf, in the
/// order the dispatcher emits them.
#[derive(Clone, Copy, PartialEq, Eq, Structural, Debug)]
pub enum Step {
    /// Make the main window visible.
    ShowWindow,
    /// Give the main window input focus.
    FocusWindow,
    /// Hide the main window.
    HideWindow,
    /// Mark a close request as handled, so the runtime keeps the window
    /// alive instead of destroying it.
    PreventClose,
    /// Deliver a best-effort kill signal to this backend process.
    StopBackend(ProcessHandle),
    /// Terminate the whole application with this exit code.
    ExitApp(i32),
}

/// Window visibility after one step, starting from `visible`.
pub open spec fn window_after_step(visible: bool, s: Step) -> bool {
    match s {
        Step::ShowWindow => true,
        Step::HideWindow => false,
        _ => visible,
    }
}

/// Window visibility after the runtime performs `steps` in order,
/// starting from `visible`.
pub open spec fn window_after_steps(visible: bool, steps: Seq<Step>) -> bool
    decreases steps.len(),
{
    if steps.len() == 0 {
        visible
    } else {
        window_after_steps(window_after_step(visible, steps[0]), steps.drop_first())
    }
}

/// How many stop requests `steps` delivers to the backend.
pub open spec fn stop_count(steps: Seq<Step>) -> nat
    decreases steps.len(),
{
    if steps.len() == 0 {
        0
    } else {
        (if steps[0] is StopBackend {
            1nat
        } else {
            0nat
        }) + stop_count(steps.drop_first())
    }
}

/// Whether `steps` terminates the application.
pub open spec fn exits_app(steps: Seq<Step>) -> bool
    decreases steps.len(),
{
    if steps.len() == 0 {
        false
    } else {
        steps[0] is ExitApp || exits_app(steps.drop_first())
    }
}

/// Unfolds the visibility fold for a single step.
pub proof fn lemma_window_after_steps_one(visible: bool, a: Step)
    ensures
        window_after_steps(visible, seq![a]) == window_after_step(visible, a),
{
    reveal_with_fuel(window_after_steps, 2);
    assert(seq![a].drop_first() =~= Seq::<Step>::empty());
}

/// Unfolds the visibility fold for two steps.
pub proof fn lemma_window_after_steps_two(visible: bool, a: Step, b: Step)
    ensures
        window_after_steps(visible, seq![a, b]) == window_after_step(
            window_after_step(visible, a),
            b,
        ),
{
    assert(seq![a, b].drop_first() =~= seq![b]);
    lemma_window_after_steps_one(window_after_step(visible, a), b);
}

/// Unfolds the stop count for a single step.
pub proof fn lemma_stop_count_one(a: Step)
    ensures
        stop_count(seq![a]) == (if a is StopBackend {
            1nat
        } else {
            0nat
        }),
{
    reveal_with_fuel(stop_count, 2);
    assert(seq![a].drop_first() =~= Seq::<Step>::empty());
}

/// Unfolds the stop count for two steps.
pub proof fn lemma_stop_count_two(a: Step, b: Step)
    ensures
        stop_count(seq![a, b]) == (if a is StopBackend {
            1nat
        } else {
            0nat
        }) + (if b is StopBackend {
            1nat
        } else {
            0nat
        }),
{
    assert(seq![a, b].drop_first() =~= seq![b]);
    lemma_stop_count_one(b);
}

/// Unfolds the termination test for a single step.
pub proof fn lemma_exits_app_one(a: Step)
    ensures
        exits_app(seq![a]) == a is ExitApp,
{
    reveal_with_fuel(exits_app, 2);
    assert(seq![a].drop_first() =~= Seq::<Step>::empty());
}

/// Unfolds the termination test for two steps.
pub proof fn lemma_exits_app_two(a: Step, b: Step)
    ensures
        exits_app(seq![a, b]) == (a is ExitApp || b is ExitApp),
{
    assert(seq![a, b].drop_first() =~= seq![b]);
    lemma_exits_app_one(b);
}

} // verus!
