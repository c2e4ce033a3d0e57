//! The tray menu and the dispatch of tray interactions.
//!
//! The tray exposes three actions — open the main window, hide it, quit
//! the application — plus double-click-to-open.  `create_system_tray`
//! builds the fixed menu model; `handle_system_tray_event` turns one
//! reported interaction into the ordered actions the runtime must
//! perform, updating the shared state so that quit stops the supervised
//! backend at most once.

use vstd::prelude::*;
use crate::process::ProcessHandle;
use crate::state::AppState;
use crate::step::Step;

verus! {

/// A tray interaction as the UI runtime reports it.
#[derive(Clone, Debug)]
pub enum TrayEvent {
    /// A click on the menu entry with this identifier.
    MenuItemClick { id: String },
    /// A double click on the tray icon itself.
    DoubleClick,
    /// Any other tray interaction; the shell ignores it.
    Other,
}

/// One entry of the tray menu.
#[derive(Clone, Debug)]
pub enum TrayMenuEntry {
    /// A clickable item: its identifier and its display label.
    Item { id: String, label: String },
    /// The separator between the window controls and quit.
    Separator,
}

/// The tray menu: an ordered sequence of entries, immutable after
/// construction.  The runtime renders it and reports clicks by entry
/// identifier.
pub struct TrayMenuModel {
    entries: Vec<TrayMenuEntry>,
}

impl TrayMenuModel {
    /// The entries, in display order.
    pub closed spec fn entries(&self) -> Seq<TrayMenuEntry> {
        self.entries@
    }

    /// Number of entries.
    pub fn len(&self) -> (n: usize)
        ensures
            n == self.entries().len(),
    {
        self.entries.len()
    }

    /// The entry at position `i`.
    pub fn entry(&self, i: usize) -> (r: &TrayMenuEntry)
        requires
            i < self.entries().len(),
        ensures
            *r == self.entries()[i as int],
    {
        &self.entries[i]
    }

    /// The display label of the item with identifier `id`, if the menu
    /// holds one.
    pub fn label_of(&self, id: &str) -> (r: Option<String>)
        ensures
            match r {
                Some(l) => exists|i: int|
                    {
                        &&& 0 <= i < self.entries().len()
                        &&& (#[trigger] self.entries()[i]) matches TrayMenuEntry::Item {
                            id: eid,
                            label,
                        } && eid@ == id@ && label@ == l@
                    },
                None => forall|i: int|
                    0 <= i < self.entries().len() ==> !((#[trigger] self.entries()[i]) matches
                        TrayMenuEntry::Item { id: eid, .. } && eid@ == id@),
            },
    {
        let key: String = id.to_owned();
        let mut i: usize = 0;
        while i < self.entries.len()
            invariant
                i <= self.entries().len(),
                key@ == id@,
                forall|j: int|
                    0 <= j < i ==> !((#[trigger] self.entries()[j]) matches TrayMenuEntry::Item {
                        id: eid,
                        ..
                    } && eid@ == id@),
            decreases self.entries().len() - i,
        {
            match &self.entries[i] {
                TrayMenuEntry::Item { id: eid, label } => {
                    if *eid == key {
                        return Some(label.clone());
                    }
                },
                TrayMenuEntry::Separator => {},
            }
            i = i + 1;
        }
        None
    }
}

/// Builds the fixed tray menu: open, hide, a separator, quit.
pub fn create_system_tray() -> (r: TrayMenuModel)
    ensures
        r.entries().len() == 4,
        r.entries()[0] matches TrayMenuEntry::Item { id, label } && id@ == "open"@ && label@
            == "打开主窗口"@,
        r.entries()[1] matches TrayMenuEntry::Item { id, label } && id@ == "hide"@ && label@
            == "隐藏窗口"@,
        r.entries()[2] is Separator,
        r.entries()[3] matches TrayMenuEntry::Item { id, label } && id@ == "quit"@ && label@
            == "退出 Promethea"@,
{
    let mut entries: Vec<TrayMenuEntry> = Vec::new();
    entries.push(TrayMenuEntry::Item { id: "open".to_owned(), label: "打开主窗口".to_owned() });
    entries.push(TrayMenuEntry::Item { id: "hide".to_owned(), label: "隐藏窗口".to_owned() });
    entries.push(TrayMenuEntry::Separator);
    entries.push(TrayMenuEntry::Item { id: "quit".to_owned(), label: "退出 Promethea".to_owned() });
    TrayMenuModel { entries }
}

/// Whether `e` asks to show and focus the window: a click on the "open"
/// entry, or a double click on the tray icon.
pub open spec fn is_open_request(e: TrayEvent) -> bool {
    ||| e matches TrayEvent::MenuItemClick { id } && id@ == "open"@
    ||| e is DoubleClick
}

/// Whether `e` is a click on the "hide" entry.
pub open spec fn is_hide_request(e: TrayEvent) -> bool {
    e matches TrayEvent::MenuItemClick { id } && id@ == "hide"@
}

/// Whether `e` is a click on the "quit" entry.
pub open spec fn is_quit_request(e: TrayEvent) -> bool {
    e matches TrayEvent::MenuItemClick { id } && id@ == "quit"@
}

/// The three menu identifiers are pairwise distinct.
pub proof fn lemma_menu_ids_distinct()
    ensures
        "open"@ != "hide"@,
        "open"@ != "quit"@,
        "hide"@ != "quit"@,
{
    reveal_strlit("open");
    reveal_strlit("hide");
    reveal_strlit("quit");
    assert("open"@[0] == 'o');
    assert("hide"@[0] == 'h');
    assert("quit"@[0] == 'q');
}

/// The supervised handle after the shell handles `e`: quit empties it,
/// every other tray event leaves it alone.
pub open spec fn next_backend(h: Option<ProcessHandle>, e: TrayEvent) -> Option<ProcessHandle> {
    if is_quit_request(e) {
        None
    } else {
        h
    }
}

/// The ordered actions the runtime must perform for `e` while the shell
/// supervises `h`: open shows then focuses the window; hide hides it;
/// quit delivers exactly one stop request when a handle is present and
/// none otherwise, then terminates the application with exit code 0;
/// every other interaction is a no-op.
pub open spec fn tray_steps(h: Option<ProcessHandle>, e: TrayEvent) -> Seq<Step> {
    if is_open_request(e) {
        seq![Step::ShowWindow, Step::FocusWindow]
    } else if is_hide_request(e) {
        seq![Step::HideWindow]
    } else if is_quit_request(e) {
        match h {
            Some(ph) => seq![Step::StopBackend(ph), Step::ExitApp(0)],
            None => seq![Step::ExitApp(0)],
        }
    } else {
        Seq::empty()
    }
}

/// Dispatches one tray interaction: updates the shared state — quit
/// takes the supervised handle out, nothing else touches it — and
/// returns the ordered actions for the runtime to perform.
pub fn handle_system_tray_event(state: &mut AppState, event: &TrayEvent) -> (r: Vec<Step>)
    ensures
        r@ == tray_steps(old(state).supervised(), *event),
        final(state).supervised() == next_backend(old(state).supervised(), *event),
{
    match event {
        TrayEvent::MenuItemClick { id } => {
            let open_key: String = "open".to_owned();
            let hide_key: String = "hide".to_owned();
            let quit_key: String = "quit".to_owned();
            if *id == open_key {
                let mut r: Vec<Step> = Vec::new();
                r.push(Step::ShowWindow);
                r.push(Step::FocusWindow);
                proof {
                    lemma_menu_ids_distinct();
                    assert(r@ =~= tray_steps(old(state).supervised(), *event));
                }
                r
            } else if *id == hide_key {
                let mut r: Vec<Step> = Vec::new();
                r.push(Step::HideWindow);
                proof {
                    lemma_menu_ids_distinct();
                    assert(r@ =~= tray_steps(old(state).supervised(), *event));
                }
                r
            } else if *id == quit_key {
                let mut r: Vec<Step> = Vec::new();
                match state.take_backend() {
                    Some(ph) => {
                        r.push(Step::StopBackend(ph));
                        r.push(Step::ExitApp(0));
                    },
                    None => {
                        r.push(Step::ExitApp(0));
                    },
                }
                proof {
                    assert(r@ =~= tray_steps(old(state).supervised(), *event));
                }
                r
            } else {
                let r: Vec<Step> = Vec::new();
                proof {
                    assert(r@ =~= tray_steps(old(state).supervised(), *event));
                }
                r
            }
        },
        TrayEvent::DoubleClick => {
            let mut r: Vec<Step> = Vec::new();
            r.push(Step::ShowWindow);
            r.push(Step::FocusWindow);
            proof {
                assert(r@ =~= tray_steps(old(state).supervised(), *event));
            }
            r
        },
        TrayEvent::Other => {
            let r: Vec<Step> = Vec::new();
            proof {
                assert(r@ =~= tray_steps(old(state).supervised(), *event));
            }
            r
        },
    }
}

/// Dispatches a tray interaction when the shared state cannot be read —
/// its lock is poisoned.  That is tolerated as "no handle to stop": the
/// window actions are unchanged and quit still terminates the
/// application, just without a stop request.
pub fn handle_system_tray_event_unlocked(event: &TrayEvent) -> (r: Vec<Step>)
    ensures
        r@ == tray_steps(None, *event),
{
    let mut orphan = AppState::new(None);
    handle_system_tray_event(&mut orphan, event)
}

} // verus!
