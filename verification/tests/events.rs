use promethea::process::ProcessHandle;
use promethea::state::AppState;
use promethea::step::Step;
use promethea::tray::{create_system_tray, handle_system_tray_event, TrayEvent, TrayMenuEntry};
use promethea::window::handle_window_close_event;

fn menu_click(id: &str) -> TrayEvent {
    TrayEvent::MenuItemClick { id: String::from(id) }
}

fn window_after(mut visible: bool, steps: &[Step]) -> bool {
    for s in steps {
        match s {
            Step::ShowWindow => visible = true,
            Step::HideWindow => visible = false,
            _ => {},
        }
    }
    visible
}

#[test]
fn tray_menu_has_open_hide_separator_quit() {
    let menu = create_system_tray();
    assert_eq!(menu.len(), 4);
    match menu.entry(0) {
        TrayMenuEntry::Item { id, label } => {
            assert_eq!(id, "open");
            assert_eq!(label, "打开主窗口");
        },
        TrayMenuEntry::Separator => panic!("first entry is the open item"),
    }
    match menu.entry(1) {
        TrayMenuEntry::Item { id, label } => {
            assert_eq!(id, "hide");
            assert_eq!(label, "隐藏窗口");
        },
        TrayMenuEntry::Separator => panic!("second entry is the hide item"),
    }
    assert!(matches!(menu.entry(2), TrayMenuEntry::Separator));
    match menu.entry(3) {
        TrayMenuEntry::Item { id, label } => {
            assert_eq!(id, "quit");
            assert_eq!(label, "退出 Promethea");
        },
        TrayMenuEntry::Separator => panic!("last entry is the quit item"),
    }
}

#[test]
fn menu_lookup_by_identifier() {
    let menu = create_system_tray();
    assert_eq!(menu.label_of("open"), Some(String::from("打开主窗口")));
    assert_eq!(menu.label_of("hide"), Some(String::from("隐藏窗口")));
    assert_eq!(menu.label_of("quit"), Some(String::from("退出 Promethea")));
    assert_eq!(menu.label_of("restart"), None);
}

#[test]
fn open_click_shows_and_focuses() {
    let mut st = AppState::new(Some(ProcessHandle { pid: 100 }));
    let steps = handle_system_tray_event(&mut st, &menu_click("open"));
    assert_eq!(steps, vec![Step::ShowWindow, Step::FocusWindow]);
    assert!(st.has_backend());
}

#[test]
fn double_click_acts_as_open() {
    let mut st = AppState::new(Some(ProcessHandle { pid: 100 }));
    let steps = handle_system_tray_event(&mut st, &TrayEvent::DoubleClick);
    assert_eq!(steps, vec![Step::ShowWindow, Step::FocusWindow]);
    assert!(st.has_backend());
}

#[test]
fn hide_click_hides_only() {
    let mut st = AppState::new(Some(ProcessHandle { pid: 100 }));
    let steps = handle_system_tray_event(&mut st, &menu_click("hide"));
    assert_eq!(steps, vec![Step::HideWindow]);
    assert!(st.has_backend());
}

#[test]
fn unknown_menu_id_is_ignored() {
    let mut st = AppState::new(Some(ProcessHandle { pid: 100 }));
    let steps = handle_system_tray_event(&mut st, &menu_click("restart"));
    assert_eq!(steps, vec![]);
    assert!(st.has_backend());
}

#[test]
fn other_tray_interaction_is_ignored() {
    let mut st = AppState::new(None);
    let steps = handle_system_tray_event(&mut st, &TrayEvent::Other);
    assert_eq!(steps, vec![]);
    assert!(!st.has_backend());
}

#[test]
fn quit_with_handle_stops_then_exits() {
    let ph = ProcessHandle { pid: 777 };
    let mut st = AppState::new(Some(ph));
    let steps = handle_system_tray_event(&mut st, &menu_click("quit"));
    assert_eq!(steps, vec![Step::StopBackend(ph), Step::ExitApp(0)]);
    assert!(!st.has_backend());
}

#[test]
fn quit_without_handle_still_exits() {
    let mut st = AppState::new(None);
    let steps = handle_system_tray_event(&mut st, &menu_click("quit"));
    assert_eq!(steps, vec![Step::ExitApp(0)]);
    assert!(!st.has_backend());
}

#[test]
fn second_quit_stops_nothing() {
    let ph = ProcessHandle { pid: 8 };
    let mut st = AppState::new(Some(ph));
    let first = handle_system_tray_event(&mut st, &menu_click("quit"));
    assert_eq!(first, vec![Step::StopBackend(ph), Step::ExitApp(0)]);
    let second = handle_system_tray_event(&mut st, &menu_click("quit"));
    assert_eq!(second, vec![Step::ExitApp(0)]);
}

#[test]
fn non_quit_events_keep_the_backend() {
    let ph = ProcessHandle { pid: 4 };
    let mut st = AppState::new(Some(ph));
    let events = vec![
        menu_click("open"),
        menu_click("hide"),
        TrayEvent::DoubleClick,
        menu_click("restart"),
        TrayEvent::Other,
    ];
    for e in &events {
        let steps = handle_system_tray_event(&mut st, e);
        assert!(steps.iter().all(|s| !matches!(s, Step::StopBackend(_))));
        assert!(steps.iter().all(|s| !matches!(s, Step::ExitApp(_))));
    }
    assert!(st.has_backend());
}

#[test]
fn close_request_hides_and_suppresses() {
    let steps = handle_window_close_event();
    assert_eq!(steps, vec![Step::HideWindow, Step::PreventClose]);
    assert!(!window_after(true, &steps));
    assert!(steps.iter().all(|s| !matches!(s, Step::StopBackend(_))));
    assert!(steps.iter().all(|s| !matches!(s, Step::ExitApp(_))));
}

#[test]
fn window_stays_hidden_until_open() {
    let mut st = AppState::new(Some(ProcessHandle { pid: 5 }));
    let mut visible = window_after(true, &handle_window_close_event());
    assert!(!visible);
    for e in [menu_click("hide"), TrayEvent::Other, menu_click("restart")] {
        let steps = handle_system_tray_event(&mut st, &e);
        visible = window_after(visible, &steps);
        assert!(!visible);
    }
    let steps = handle_system_tray_event(&mut st, &menu_click("open"));
    visible = window_after(visible, &steps);
    assert!(visible);
}

#[test]
fn open_then_hide_leaves_window_hidden_and_state_alone() {
    let ph = ProcessHandle { pid: 6 };
    let mut st = AppState::new(Some(ph));
    let mut visible = false;
    visible = window_after(visible, &handle_system_tray_event(&mut st, &menu_click("open")));
    assert!(visible);
    visible = window_after(visible, &handle_system_tray_event(&mut st, &menu_click("hide")));
    assert!(!visible);
    assert!(st.has_backend());
}

#[test]
fn take_backend_empties_the_state() {
    let ph = ProcessHandle { pid: 12 };
    let mut st = AppState::new(Some(ph));
    assert_eq!(st.take_backend(), Some(ph));
    assert_eq!(st.take_backend(), None);
    assert!(!st.has_backend());
}

#[test]
fn poisoned_lock_quit_still_exits_without_stop() {
    let steps = promethea::tray::handle_system_tray_event_unlocked(&menu_click("quit"));
    assert_eq!(steps, vec![Step::ExitApp(0)]);
    let open = promethea::tray::handle_system_tray_event_unlocked(&menu_click("open"));
    assert_eq!(open, vec![Step::ShowWindow, Step::FocusWindow]);
}
