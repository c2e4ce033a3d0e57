//! Routing of main-window close requests.
//!
//! Clicking the window's native close control must not end the
//! application: the window is hidden and the close request is marked
//! handled, so the runtime keeps the window and the event loop alive.
//! Only the tray's quit action terminates the process.

use vstd::prelude::*;
use crate::step::Step;

verus! {

/// The actions for a close request on the main window: hide the window,
/// then suppress the close, so the runtime neither destroys the window
/// nor exits the application.
pub open spec fn close_request_steps() -> Seq<Step> {
    seq![Step::HideWindow, Step::PreventClose]
}

/// Dispatches a close request on the main window.  It takes no
/// application state: a close request can never touch the supervised
/// backend process.
pub fn handle_window_close_event() -> (r: Vec<Step>)
    ensures
        r@ == close_request_steps(),
{
    let mut r: Vec<Step> = Vec::new();
    r.push(Step::HideWindow);
    r.push(Step::PreventClose);
    proof {
        assert(r@ =~= close_request_steps());
    }
    r
}

} // verus!
