//! The shell's guarantees across whole event sequences.
//!
//! The dispatcher's contracts describe one event at a time; the proof
//! functions here state what follows for the session: only quit can ever
//! touch the supervised backend, quit stops it at most once and always
//! terminates the application, a window close request is harmless to the
//! backend, and a hidden window stays hidden until an open request.

use vstd::prelude::*;
use crate::process::ProcessHandle;
use crate::step::Step;
use crate::step::{window_after_steps, stop_count, exits_app};
use crate::step::{lemma_window_after_steps_one, lemma_window_after_steps_two};
use crate::step::{lemma_stop_count_one, lemma_stop_count_two};
use crate::step::{lemma_exits_app_one, lemma_exits_app_two};
use crate::tray::{TrayEvent, is_open_request, is_hide_request, is_quit_request};
use crate::tray::{next_backend, tray_steps, lemma_menu_ids_distinct};
use crate::window::close_request_steps;

verus! {

/// The supervised handle after a whole sequence of tray events.
pub open spec fn backend_after(h: Option<ProcessHandle>, events: Seq<TrayEvent>) -> Option<
    ProcessHandle,
>
    decreases events.len(),
{
    if events.len() == 0 {
        h
    } else {
        backend_after(next_backend(h, events[0]), events.drop_first())
    }
}

/// Window visibility after a whole sequence of tray events, starting
/// from handle `h` and visibility `visible`.
pub open spec fn window_after(h: Option<ProcessHandle>, visible: bool, events: Seq<TrayEvent>) -> bool
    decreases events.len(),
{
    if events.len() == 0 {
        visible
    } else {
        window_after(
            next_backend(h, events[0]),
            window_after_steps(visible, tray_steps(h, events[0])),
            events.drop_first(),
        )
    }
}

/// A single tray event that is not quit emits no stop request.
pub proof fn lemma_non_quit_event_no_stop(h: Option<ProcessHandle>, e: TrayEvent)
    requires
        !is_quit_request(e),
    ensures
        stop_count(tray_steps(h, e)) == 0,
{
    if is_open_request(e) {
        lemma_stop_count_two(Step::ShowWindow, Step::FocusWindow);
    } else if is_hide_request(e) {
        lemma_stop_count_one(Step::HideWindow);
    } else {
        assert(stop_count(Seq::<Step>::empty()) == 0);
    }
}

/// A tray-event sequence without quit never changes the supervised
/// handle: no tray interaction short of quit can kill the backend, not
/// even implicitly.
pub proof fn lemma_no_quit_keeps_backend(h: Option<ProcessHandle>, events: Seq<TrayEvent>)
    requires
        forall|i: int| 0 <= i < events.len() ==> !is_quit_request(#[trigger] events[i]),
    ensures
        backend_after(h, events) == h,
    decreases events.len(),
{
    if events.len() > 0 {
        let rest = events.drop_first();
        assert(!is_quit_request(events[0]));
        assert forall|i: int| 0 <= i < rest.len() implies !is_quit_request(
            #[trigger] rest[i],
        ) by {
            assert(rest[i] == events[i + 1]);
        }
        assert(next_backend(h, events[0]) == h);
        lemma_no_quit_keeps_backend(h, rest);
    }
}

/// Quit delivers at most one stop request — exactly one when a handle is
/// tracked, none otherwise — always stops before it exits, always
/// terminates the application, and always leaves the state empty.
pub proof fn lemma_quit_stops_once_and_exits(h: Option<ProcessHandle>, e: TrayEvent)
    requires
        is_quit_request(e),
    ensures
        stop_count(tray_steps(h, e)) <= 1,
        h matches Some(ph) ==> tray_steps(h, e) == seq![Step::StopBackend(ph), Step::ExitApp(0)]
            && stop_count(tray_steps(h, e)) == 1,
        h is None ==> tray_steps(h, e) == seq![Step::ExitApp(0)] && stop_count(tray_steps(h, e))
            == 0,
        exits_app(tray_steps(h, e)),
        next_backend(h, e) is None,
{
    lemma_menu_ids_distinct();
    assert(!is_open_request(e));
    assert(!is_hide_request(e));
    match h {
        Some(ph) => {
            lemma_stop_count_two(Step::StopBackend(ph), Step::ExitApp(0));
            lemma_exits_app_two(Step::StopBackend(ph), Step::ExitApp(0));
        },
        None => {
            lemma_stop_count_one(Step::ExitApp(0));
            lemma_exits_app_one(Step::ExitApp(0));
        },
    }
}

/// After one quit the supervised handle is gone, so a second quit can
/// deliver no further stop request: over a whole session the backend is
/// stopped at most once.
pub proof fn lemma_second_quit_stops_nothing(
    h: Option<ProcessHandle>,
    first: TrayEvent,
    second: TrayEvent,
)
    requires
        is_quit_request(first),
        is_quit_request(second),
    ensures
        stop_count(tray_steps(next_backend(h, first), second)) == 0,
{
    lemma_quit_stops_once_and_exits(h, first);
    lemma_quit_stops_once_and_exits(next_backend(h, first), second);
}

/// How many stop requests the backend receives over a whole sequence of
/// tray events, starting from handle `h`.
pub open spec fn stops_during(h: Option<ProcessHandle>, events: Seq<TrayEvent>) -> nat
    decreases events.len(),
{
    if events.len() == 0 {
        0
    } else {
        stop_count(tray_steps(h, events[0])) + stops_during(
            next_backend(h, events[0]),
            events.drop_first(),
        )
    }
}

/// Over any whole session — any sequence of tray events whatsoever —
/// the backend receives at most one stop request, and none at all when
/// no handle was tracked to begin with.
pub proof fn lemma_backend_stopped_at_most_once(h: Option<ProcessHandle>, events: Seq<TrayEvent>)
    ensures
        stops_during(h, events) <= 1,
        h is None ==> stops_during(h, events) == 0,
    decreases events.len(),
{
    if events.len() > 0 {
        let rest = events.drop_first();
        if is_quit_request(events[0]) {
            lemma_quit_stops_once_and_exits(h, events[0]);
            lemma_backend_stopped_at_most_once(next_backend(h, events[0]), rest);
        } else {
            lemma_non_quit_event_no_stop(h, events[0]);
            lemma_backend_stopped_at_most_once(h, rest);
        }
    }
}

/// A window close request hides the window, delivers no stop request and
/// never terminates the application; it takes no state, so the
/// supervised backend cannot be touched.
pub proof fn lemma_close_request_harmless(visible: bool)
    ensures
        window_after_steps(visible, close_request_steps()) == false,
        stop_count(close_request_steps()) == 0,
        !exits_app(close_request_steps()),
{
    lemma_window_after_steps_two(visible, Step::HideWindow, Step::PreventClose);
    lemma_stop_count_two(Step::HideWindow, Step::PreventClose);
    lemma_exits_app_two(Step::HideWindow, Step::PreventClose);
}

/// A single tray event that is not an open request leaves a hidden
/// window hidden.
pub proof fn lemma_non_open_event_keeps_hidden(h: Option<ProcessHandle>, e: TrayEvent)
    requires
        !is_open_request(e),
    ensures
        window_after_steps(false, tray_steps(h, e)) == false,
{
    if is_hide_request(e) {
        lemma_window_after_steps_one(false, Step::HideWindow);
    } else if is_quit_request(e) {
        match h {
            Some(ph) => {
                lemma_window_after_steps_two(false, Step::StopBackend(ph), Step::ExitApp(0));
            },
            None => {
                lemma_window_after_steps_one(false, Step::ExitApp(0));
            },
        }
    } else {
        assert(window_after_steps(false, Seq::<Step>::empty()) == false);
    }
}

/// Once the window is hidden it stays hidden across any tray events
/// until an open request — a click on "open" or a double click on the
/// tray icon — arrives.
pub proof fn lemma_hidden_until_open(h: Option<ProcessHandle>, events: Seq<TrayEvent>)
    requires
        forall|i: int| 0 <= i < events.len() ==> !is_open_request(#[trigger] events[i]),
    ensures
        window_after(h, false, events) == false,
    decreases events.len(),
{
    if events.len() > 0 {
        let rest = events.drop_first();
        assert(!is_open_request(events[0]));
        assert forall|i: int| 0 <= i < rest.len() implies !is_open_request(
            #[trigger] rest[i],
        ) by {
            assert(rest[i] == events[i + 1]);
        }
        lemma_non_open_event_keeps_hidden(h, events[0]);
        lemma_hidden_until_open(next_backend(h, events[0]), rest);
    }
}

/// An open request followed immediately by a hide request leaves the
/// window hidden and the supervised handle exactly as it was.
pub proof fn lemma_open_then_hide(
    h: Option<ProcessHandle>,
    visible: bool,
    first: TrayEvent,
    second: TrayEvent,
)
    requires
        is_open_request(first),
        is_hide_request(second),
    ensures
        window_after(h, visible, seq![first, second]) == false,
        backend_after(h, seq![first, second]) == h,
{
    lemma_menu_ids_distinct();
    let events = seq![first, second];
    assert(events.drop_first() =~= seq![second]);
    assert(seq![second].drop_first() =~= Seq::<TrayEvent>::empty());
    assert(!is_quit_request(first));
    assert(!is_quit_request(second));
    assert(!is_open_request(second));
    lemma_window_after_steps_two(visible, Step::ShowWindow, Step::FocusWindow);
    assert(window_after_steps(visible, tray_steps(h, first)) == true);
    lemma_window_after_steps_one(true, Step::HideWindow);
    reveal_with_fuel(window_after, 3);
    reveal_with_fuel(backend_after, 3);
}

} // verus!
