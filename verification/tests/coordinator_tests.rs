use dt_wry::coordinator::{Action, Coordinator, UserEvent, WindowOp};
use dt_wry::factory::{plan_window, WindowPlan};
use dt_wry::message::parse_ipc_message;
use dt_wry::options::WindowOptions;

fn plan_for(url: &str) -> WindowPlan {
    let mut o = WindowOptions::new();
    o.url = Some(url.to_string());
    plan_window(&o, &None, "0.35").unwrap()
}

fn coordinator_with_one_window(id: u64, primary_number: i64) -> Coordinator {
    let mut c = Coordinator::new(false, primary_number, None, "0.35".to_string());
    assert!(c.register_window(id, &plan_for("http://x")));
    c
}

#[test]
fn register_and_count() {
    let mut c = Coordinator::new(false, -1, None, "0.35".to_string());
    assert_eq!(c.window_count(), 0);
    assert!(c.register_window(1, &plan_for("http://a")));
    assert!(c.register_window(2, &plan_for("http://b")));
    assert_eq!(c.window_count(), 2);
    assert!(c.has_window(1));
    assert!(c.has_window(2));
    assert!(!c.has_window(3));
}

#[test]
fn register_duplicate_identity_is_refused() {
    let mut c = coordinator_with_one_window(1, -1);
    assert!(!c.register_window(1, &plan_for("http://b")));
    assert_eq!(c.window_count(), 1);
}

#[test]
fn close_last_window_emits_status_line_and_exit() {
    let mut c = coordinator_with_one_window(1, 5);
    let acts = c.handle_close(1);
    assert_eq!(acts.len(), 2);
    match &acts[0] {
        Action::StatusLine(s) => assert_eq!(s, "CLOSE-WINDOW 5"),
        _ => panic!("expected the status line first"),
    }
    assert!(matches!(acts[1], Action::Exit));
    assert_eq!(c.window_count(), 0);
    assert!(c.is_terminated());
}

#[test]
fn close_default_window_number_is_minus_one() {
    let mut c = coordinator_with_one_window(1, -1);
    let acts = c.handle_close(1);
    match &acts[0] {
        Action::StatusLine(s) => assert_eq!(s, "CLOSE-WINDOW -1"),
        _ => panic!("expected the status line first"),
    }
}

#[test]
fn close_one_of_two_emits_nothing() {
    let mut c = coordinator_with_one_window(1, -1);
    assert!(c.register_window(2, &plan_for("http://b")));
    let acts = c.handle_close(1);
    assert!(acts.is_empty());
    assert_eq!(c.window_count(), 1);
    assert!(!c.is_terminated());
    let acts = c.handle_close(2);
    assert_eq!(acts.len(), 2);
    assert!(c.is_terminated());
}

#[test]
fn close_absent_window_is_a_no_op() {
    let mut c = coordinator_with_one_window(1, -1);
    let acts = c.handle_close(9);
    assert!(acts.is_empty());
    assert_eq!(c.window_count(), 1);
    assert!(!c.is_terminated());
}

#[test]
fn set_title_changes_only_the_named_window() {
    let mut c = coordinator_with_one_window(1, -1);
    assert!(c.register_window(2, &plan_for("http://b")));
    let acts = c.handle_user_event(UserEvent::NewTitle(1, "Hello".to_string()));
    assert_eq!(acts.len(), 1);
    match &acts[0] {
        Action::SetTitle(id, t) => {
            assert_eq!(*id, 1);
            assert_eq!(t, "Hello");
        },
        _ => panic!("expected a retitle"),
    }
    assert_eq!(c.get_window(1).unwrap().title, "Hello");
    assert_eq!(c.get_window(2).unwrap().title, "DomTerm: (http://b)");
}

#[test]
fn minimize_then_show_leaves_visible_focused() {
    let mut c = coordinator_with_one_window(1, -1);
    c.handle_user_event(UserEvent::WindowOp(1, WindowOp::Hide));
    let w = c.get_window(1).unwrap();
    assert!(!w.visible);
    assert!(!w.minimized);
    c.handle_user_event(UserEvent::WindowOp(1, WindowOp::Minimize));
    let w = c.get_window(1).unwrap();
    assert!(w.visible);
    assert!(w.minimized);
    c.handle_user_event(UserEvent::WindowOp(1, WindowOp::Show));
    let w = c.get_window(1).unwrap();
    assert!(w.visible);
    assert!(!w.minimized);
    assert!(w.focused);
}

#[test]
fn show_after_minimize_forces_the_extra_cycle() {
    let mut c = coordinator_with_one_window(1, -1);
    c.handle_user_event(UserEvent::WindowOp(1, WindowOp::Minimize));
    let acts = c.handle_user_event(UserEvent::WindowOp(1, WindowOp::Show));
    assert_eq!(acts.len(), 4);
    assert!(matches!(acts[0], Action::SetVisible(1, false)));
    assert!(matches!(acts[1], Action::SetMinimized(1, false)));
    assert!(matches!(acts[2], Action::SetVisible(1, true)));
    assert!(matches!(acts[3], Action::Focus(1)));
}

#[test]
fn show_on_wayland_always_forces_the_cycle() {
    let mut c = Coordinator::new(true, -1, None, "0.35".to_string());
    assert!(c.register_window(1, &plan_for("http://x")));
    let acts = c.handle_user_event(UserEvent::WindowOp(1, WindowOp::Show));
    assert_eq!(acts.len(), 4);
}

#[test]
fn show_plain_is_visible_and_focus_only() {
    let mut c = coordinator_with_one_window(1, -1);
    let acts = c.handle_user_event(UserEvent::WindowOp(1, WindowOp::Show));
    assert_eq!(acts.len(), 2);
    assert!(matches!(acts[0], Action::SetVisible(1, true)));
    assert!(matches!(acts[1], Action::Focus(1)));
}

#[test]
fn minimize_hidden_window_is_made_visible_first() {
    let mut c = coordinator_with_one_window(1, -1);
    c.handle_user_event(UserEvent::WindowOp(1, WindowOp::Hide));
    let acts = c.handle_user_event(UserEvent::WindowOp(1, WindowOp::Minimize));
    assert_eq!(acts.len(), 2);
    assert!(matches!(acts[0], Action::SetVisible(1, true)));
    assert!(matches!(acts[1], Action::SetMinimized(1, true)));
}

#[test]
fn maximize_does_nothing() {
    let mut c = coordinator_with_one_window(1, -1);
    let acts = c.handle_user_event(UserEvent::WindowOp(1, WindowOp::Maximize));
    assert!(acts.is_empty());
}

#[test]
fn move_window_parses_its_payload() {
    let mut c = coordinator_with_one_window(1, -1);
    let acts = c.handle_user_event(UserEvent::MoveWindow(1, "+30-40".to_string()));
    assert_eq!(acts.len(), 1);
    assert!(matches!(acts[0], Action::SetPosition(1, 30, -40)));
    assert_eq!(c.get_window(1).unwrap().position, Some((30, -40)));
    let acts = c.handle_user_event(UserEvent::MoveWindow(1, "oops".to_string()));
    assert!(acts.is_empty());
}

#[test]
fn devtools_toggles_for_present_windows_only() {
    let mut c = coordinator_with_one_window(1, -1);
    let acts = c.handle_user_event(UserEvent::Devtools(1, "toggle".to_string()));
    assert_eq!(acts.len(), 1);
    assert!(matches!(acts[0], Action::ToggleDevtools(1)));
    let acts = c.handle_user_event(UserEvent::Devtools(9, "toggle".to_string()));
    assert!(acts.is_empty());
}

#[test]
fn new_window_event_plans_one_window_with_default_title() {
    let mut c = coordinator_with_one_window(1, -1);
    let ev = parse_ipc_message(1, "new-window {\"url\":\"http://x\"}").unwrap();
    let acts = c.handle_user_event(ev);
    assert_eq!(acts.len(), 1);
    let plan = match &acts[0] {
        Action::CreateWindow(p) => p,
        _ => panic!("expected a creation request"),
    };
    assert_eq!(plan.title, "DomTerm: (http://x)");
    assert_eq!(c.window_count(), 1);
    assert!(c.register_window(2, plan));
    assert_eq!(c.window_count(), 2);
}

#[test]
fn new_window_without_url_is_dropped() {
    let mut c = coordinator_with_one_window(1, -1);
    let ev = parse_ipc_message(1, "new-window {\"windowTitle\":\"t\"}").unwrap();
    let acts = c.handle_user_event(ev);
    assert!(acts.is_empty());
    assert_eq!(c.window_count(), 1);
}

#[test]
fn message_lines_parse_to_events() {
    assert!(matches!(
        parse_ipc_message(3, "set-title Hello"),
        Some(UserEvent::NewTitle(3, t)) if t == "Hello"
    ));
    assert!(matches!(
        parse_ipc_message(3, "set-title"),
        Some(UserEvent::NewTitle(3, t)) if t.is_empty()
    ));
    assert!(matches!(parse_ipc_message(3, "close"), Some(UserEvent::CloseWindow(3))));
    assert!(matches!(parse_ipc_message(3, "close now"), Some(UserEvent::CloseWindow(3))));
    assert!(matches!(
        parse_ipc_message(3, "hide"),
        Some(UserEvent::WindowOp(3, WindowOp::Hide))
    ));
    assert!(matches!(
        parse_ipc_message(3, "show"),
        Some(UserEvent::WindowOp(3, WindowOp::Show))
    ));
    assert!(matches!(
        parse_ipc_message(3, "minimize"),
        Some(UserEvent::WindowOp(3, WindowOp::Minimize))
    ));
    assert!(matches!(
        parse_ipc_message(3, "maximize"),
        Some(UserEvent::WindowOp(3, WindowOp::Maximize))
    ));
    assert!(matches!(
        parse_ipc_message(3, "move-window +1+2"),
        Some(UserEvent::MoveWindow(3, t)) if t == "+1+2"
    ));
    assert!(matches!(
        parse_ipc_message(3, "devtools toggle"),
        Some(UserEvent::Devtools(3, t)) if t == "toggle"
    ));
}

#[test]
fn message_lines_silently_ignored() {
    assert!(parse_ipc_message(3, "").is_none());
    assert!(parse_ipc_message(3, "unknown").is_none());
    assert!(parse_ipc_message(3, "hide now").is_none());
    assert!(parse_ipc_message(3, "hide ").is_none());
    assert!(parse_ipc_message(3, "new-window").is_none());
    assert!(parse_ipc_message(3, "new-window oops").is_none());
    assert!(parse_ipc_message(3, "new-window [1]").is_none());
}

#[test]
fn lifecycle_accounting_over_a_mixed_run() {
    let mut c = Coordinator::new(false, 2, None, "0.35".to_string());
    let mut opened = 0i64;
    let mut closed = 0i64;
    assert!(c.register_window(1, &plan_for("http://a")));
    opened += 1;
    assert!(c.register_window(2, &plan_for("http://b")));
    opened += 1;
    if c.has_window(1) {
        c.handle_close(1);
        closed += 1;
    }
    assert!(c.register_window(3, &plan_for("http://c")));
    opened += 1;
    if !c.register_window(3, &plan_for("http://dup")) {
        // a duplicate identity counts as no successful creation
    }
    assert_eq!(c.window_count() as i64, opened - closed);
    c.handle_close(2);
    closed += 1;
    c.handle_close(3);
    closed += 1;
    assert_eq!(c.window_count() as i64, opened - closed);
    assert_eq!(c.window_count(), 0);
    assert!(c.is_terminated());
}
