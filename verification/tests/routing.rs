use aethex_shell::desktop::{Desktop, Pane};
use aethex_shell::effect::Effect;
use aethex_shell::greeting::greet;
use aethex_shell::menu::{EntryKind, MenuAction, MenuModel};
use aethex_shell::notify::emit;
use aethex_shell::router::{route, route_action, MouseButton, TrayEvent, EXIT_STATUS};
use aethex_shell::text::same_text;
use aethex_shell::window::{hide_window, show_and_focus, toggle, Visibility, WindowOp, WindowProbe, MAIN_WINDOW};

fn menu(id: &str) -> TrayEvent {
    TrayEvent::MenuSelected { id: id.to_string() }
}

fn click(button: MouseButton) -> TrayEvent {
    TrayEvent::IconClicked { button }
}

fn hidden() -> Option<Pane> {
    Some(Pane { visible: false, focused: false })
}

fn visible() -> Option<Pane> {
    Some(Pane { visible: true, focused: true })
}

const PROBES: [WindowProbe; 4] = [
    WindowProbe::Absent,
    WindowProbe::Present(Visibility::Visible),
    WindowProbe::Present(Visibility::Hidden),
    WindowProbe::Present(Visibility::Unknown),
];

/// Effects written as short text, so that whole plans compare at a glance.
fn show(effects: &[Effect]) -> Vec<String> {
    effects
        .iter()
        .map(|e| match e {
            Effect::Window(WindowOp::Show) => "show".to_string(),
            Effect::Window(WindowOp::SetFocus) => "focus".to_string(),
            Effect::Window(WindowOp::Hide) => "hide".to_string(),
            Effect::Emit(ev) => format!("emit {} {}", ev.name, ev.payload),
            Effect::Exit(status) => format!("exit {}", status),
        })
        .collect()
}

#[test]
fn scenario_click_then_hide_then_new_project() {
    let mut desk = Desktop::new(hidden());

    let first = desk.dispatch(&click(MouseButton::Left));
    assert_eq!(show(&first), vec!["show", "focus"]);
    assert_eq!(desk.window, visible());

    let second = desk.dispatch(&menu("hide"));
    assert_eq!(show(&second), vec!["hide"]);
    assert_eq!(desk.window, hidden());

    let third = desk.dispatch(&menu("new_project"));
    assert_eq!(show(&third), vec!["show", "focus", "emit open-app projects"]);
    assert_eq!(desk.window, visible());
    assert_eq!(desk.sent.len(), 1);
    assert_eq!(desk.sent[0].name, "open-app");
    assert_eq!(desk.sent[0].payload, "projects");
    assert_eq!(desk.exit_status, None);
}

#[test]
fn show_on_present_window_shows_then_focuses() {
    for probe in &PROBES[1..] {
        assert_eq!(show(&route(&menu("show"), *probe)), vec!["show", "focus"]);
    }
}

#[test]
fn hide_on_present_window_hides() {
    for probe in &PROBES[1..] {
        assert_eq!(show(&route(&menu("hide"), *probe)), vec!["hide"]);
    }
}

#[test]
fn open_app_ids_show_then_emit_their_payload() {
    let table = [("new_project", "projects"), ("terminal", "terminal"), ("achievements", "achievements")];
    for (id, payload) in table {
        for probe in &PROBES[1..] {
            assert_eq!(
                show(&route(&menu(id), *probe)),
                vec!["show".to_string(), "focus".to_string(), format!("emit open-app {}", payload)]
            );
        }
    }
}

#[test]
fn absent_window_means_no_effect_for_every_id_but_quit() {
    for id in ["show", "hide", "new_project", "terminal", "achievements"] {
        assert!(route(&menu(id), WindowProbe::Absent).is_empty(), "{}", id);
    }
    assert!(route(&click(MouseButton::Left), WindowProbe::Absent).is_empty());
}

#[test]
fn quit_exits_with_status_zero_whatever_the_window() {
    assert_eq!(EXIT_STATUS, 0);
    for probe in PROBES {
        assert_eq!(show(&route(&menu("quit"), probe)), vec!["exit 0"]);
    }
}

#[test]
fn unknown_id_has_no_effect() {
    for id in ["foo123", "", "Show", "show ", "quit\n", "new-project", "open-app"] {
        for probe in PROBES {
            assert!(route(&menu(id), probe).is_empty(), "{:?}", id);
        }
    }
}

#[test]
fn unknown_id_leaves_the_desktop_as_it_was() {
    let mut desk = Desktop::new(visible());
    let effects = desk.dispatch(&menu("foo123"));
    assert!(effects.is_empty());
    assert_eq!(desk.window, visible());
    assert!(desk.sent.is_empty());
    assert_eq!(desk.exit_status, None);
}

#[test]
fn left_click_toggles() {
    assert_eq!(show(&route(&click(MouseButton::Left), PROBES[1])), vec!["hide"]);
    assert_eq!(show(&route(&click(MouseButton::Left), PROBES[2])), vec!["show", "focus"]);

    let mut desk = Desktop::new(visible());
    desk.dispatch(&click(MouseButton::Left));
    assert_eq!(desk.window, hidden());
    desk.dispatch(&click(MouseButton::Left));
    assert_eq!(desk.window, visible());
}

#[test]
fn left_click_with_unanswered_query_shows() {
    assert_eq!(show(&route(&click(MouseButton::Left), PROBES[3])), vec!["show", "focus"]);
}

#[test]
fn left_click_without_window_changes_nothing() {
    let mut desk = Desktop::new(None);
    let effects = desk.dispatch(&click(MouseButton::Left));
    assert!(effects.is_empty());
    assert_eq!(desk.window, None);
    assert!(desk.sent.is_empty());
}

#[test]
fn other_buttons_have_no_effect() {
    for button in [MouseButton::Right, MouseButton::Middle] {
        for probe in PROBES {
            assert!(route(&click(button), probe).is_empty());
        }
        let mut desk = Desktop::new(visible());
        assert!(desk.dispatch(&click(button)).is_empty());
        assert_eq!(desk.window, visible());
    }
}

#[test]
fn show_twice_is_show_once() {
    for start in [hidden(), visible(), Some(Pane { visible: true, focused: false }), None] {
        let mut once = Desktop::new(start);
        once.dispatch(&menu("show"));
        let mut twice = Desktop::new(start);
        twice.dispatch(&menu("show"));
        twice.dispatch(&menu("show"));
        assert_eq!(once.window, twice.window);
        assert_eq!(once.sent.len(), twice.sent.len());
        assert_eq!(once.exit_status, twice.exit_status);
        if start.is_some() {
            assert_eq!(twice.window, visible());
        }
    }
}

#[test]
fn window_operations_come_before_the_event() {
    for id in ["new_project", "terminal", "achievements"] {
        let effects = route(&menu(id), PROBES[2]);
        let first_emit = effects.iter().position(|e| matches!(e, Effect::Emit(_))).unwrap();
        let last_window = effects.iter().rposition(|e| matches!(e, Effect::Window(_))).unwrap();
        assert!(last_window < first_emit);
    }
}

#[test]
fn recognised_ids_change_visibility_at_most_once() {
    for id in ["show", "hide", "new_project", "terminal", "achievements"] {
        for probe in PROBES {
            let n = route(&menu(id), probe)
                .iter()
                .filter(|e| matches!(e, Effect::Window(WindowOp::Show) | Effect::Window(WindowOp::Hide)))
                .count();
            assert!(n <= 1);
        }
    }
}

#[test]
fn nothing_is_routed_after_quit() {
    let mut desk = Desktop::new(hidden());
    let effects = desk.dispatch(&menu("quit"));
    assert_eq!(show(&effects), vec!["exit 0"]);
    assert_eq!(desk.exit_status, Some(0));
    for event in [menu("show"), menu("new_project"), menu("quit"), click(MouseButton::Left)] {
        assert!(desk.dispatch(&event).is_empty());
    }
    assert_eq!(desk.window, hidden());
    assert!(desk.sent.is_empty());
    assert_eq!(desk.exit_status, Some(0));
}

#[test]
fn emitted_event_is_lost_without_a_window() {
    assert!(emit(WindowProbe::Absent, "open-app", "projects").is_none());
    let event = emit(PROBES[2], "open-app", "projects").unwrap();
    assert_eq!(event.name, "open-app");
    assert_eq!(event.payload, "projects");

    let mut desk = Desktop::new(None);
    desk.apply(&Effect::Emit(event));
    assert!(desk.sent.is_empty());
}

#[test]
fn applying_effects_one_by_one() {
    let mut desk = Desktop::new(hidden());
    desk.apply(&Effect::Window(WindowOp::Show));
    assert_eq!(desk.window, Some(Pane { visible: true, focused: false }));
    desk.apply(&Effect::Window(WindowOp::SetFocus));
    assert_eq!(desk.window, visible());
    desk.apply(&Effect::Window(WindowOp::Hide));
    assert_eq!(desk.window, hidden());
    desk.apply_all(&vec![Effect::Window(WindowOp::Show), Effect::Exit(3), Effect::Window(WindowOp::Hide)]);
    assert_eq!(desk.window, Some(Pane { visible: true, focused: false }));
    assert_eq!(desk.exit_status, Some(3));
    assert_eq!(desk.probe(), WindowProbe::Present(Visibility::Visible));
}

#[test]
fn visibility_controller_operations() {
    assert_eq!(show_and_focus(WindowProbe::Absent), vec![]);
    assert_eq!(hide_window(WindowProbe::Absent), vec![]);
    assert_eq!(toggle(WindowProbe::Absent), vec![]);
    for probe in &PROBES[1..] {
        assert_eq!(show_and_focus(*probe), vec![WindowOp::Show, WindowOp::SetFocus]);
        assert_eq!(hide_window(*probe), vec![WindowOp::Hide]);
    }
    assert_eq!(toggle(PROBES[1]), vec![WindowOp::Hide]);
    assert_eq!(toggle(PROBES[2]), vec![WindowOp::Show, WindowOp::SetFocus]);
    assert_eq!(toggle(PROBES[3]), vec![WindowOp::Show, WindowOp::SetFocus]);
}

#[test]
fn menu_is_built_in_order() {
    let menu = MenuModel::build();
    assert_eq!(menu.len(), 8);
    let expected = [
        ("show", "Show AeThex-OS", true, EntryKind::Action),
        ("hide", "Hide to Tray", true, EntryKind::Action),
        ("", "", false, EntryKind::Separator),
        ("new_project", "\u{1F4CB} New Project", true, EntryKind::Action),
        ("terminal", "\u{1F4BB} Quick Terminal", true, EntryKind::Action),
        ("achievements", "\u{1F3C6} Achievements", true, EntryKind::Action),
        ("", "", false, EntryKind::Separator),
        ("quit", "Quit", true, EntryKind::Action),
    ];
    for (i, (id, label, enabled, kind)) in expected.iter().enumerate() {
        let entry = menu.entry(i).unwrap();
        assert_eq!(entry.id, *id);
        assert_eq!(entry.label, *label);
        assert_eq!(entry.enabled, *enabled);
        assert_eq!(entry.kind, *kind);
    }
    assert!(menu.entry(8).is_none());
}

#[test]
fn menu_ids_are_distinct_and_recognised() {
    let menu = MenuModel::build();
    let mut seen: Vec<String> = Vec::new();
    for i in 0..menu.len() {
        let entry = menu.entry(i).unwrap();
        if entry.kind == EntryKind::Action {
            assert!(!seen.contains(&entry.id));
            let action = MenuAction::from_id(&entry.id).unwrap();
            assert_eq!(action.id(), entry.id);
            assert_eq!(action.label(), entry.label);
            seen.push(entry.id.clone());
        }
    }
    assert_eq!(seen.len(), 6);
}

#[test]
fn ids_map_to_their_actions() {
    assert_eq!(MenuAction::from_id("show"), Some(MenuAction::Show));
    assert_eq!(MenuAction::from_id("hide"), Some(MenuAction::Hide));
    assert_eq!(MenuAction::from_id("new_project"), Some(MenuAction::NewProject));
    assert_eq!(MenuAction::from_id("terminal"), Some(MenuAction::Terminal));
    assert_eq!(MenuAction::from_id("achievements"), Some(MenuAction::Achievements));
    assert_eq!(MenuAction::from_id("quit"), Some(MenuAction::Quit));
    assert_eq!(MenuAction::from_id("foo123"), None);
    assert_eq!(MenuAction::NewProject.app(), Some("projects"));
    assert_eq!(MenuAction::Terminal.app(), Some("terminal"));
    assert_eq!(MenuAction::Achievements.app(), Some("achievements"));
    assert_eq!(MenuAction::Show.app(), None);
    assert_eq!(show(&route_action(MenuAction::Hide, PROBES[1])), vec!["hide"]);
}

#[test]
fn same_text_compares_by_characters() {
    assert!(same_text("show", "show"));
    assert!(same_text("", ""));
    assert!(!same_text("show", "shoW"));
    assert!(!same_text("show", "show "));
}

#[test]
fn greeting_wraps_the_name() {
    assert_eq!(greet("Ada"), "Hello, Ada! You've been greeted from Rust!");
    assert_eq!(greet(""), "Hello, ! You've been greeted from Rust!");
}

#[test]
fn hide_twice_is_hide_once() {
    for start in [hidden(), visible(), None] {
        let mut once = Desktop::new(start);
        once.dispatch(&menu("hide"));
        let mut twice = Desktop::new(start);
        twice.dispatch(&menu("hide"));
        twice.dispatch(&menu("hide"));
        assert_eq!(once.window, twice.window);
        if start.is_some() {
            assert_eq!(twice.window, hidden());
        }
    }
}

#[test]
fn open_app_twice_sends_twice() {
    let mut desk = Desktop::new(hidden());
    desk.dispatch(&menu("terminal"));
    desk.dispatch(&menu("achievements"));
    assert_eq!(desk.window, visible());
    let sent: Vec<(&str, &str)> = desk.sent.iter().map(|e| (e.name.as_str(), e.payload.as_str())).collect();
    assert_eq!(sent, vec![("open-app", "terminal"), ("open-app", "achievements")]);
}

#[test]
fn main_window_is_looked_up_by_its_name() {
    assert_eq!(MAIN_WINDOW, "main");
}
