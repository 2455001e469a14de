//! The tray event router: the single place where a menu selection or a click
//! on the tray icon is turned into window operations, notifications, or the
//! end of the process.

use vstd::prelude::*;
use crate::effect::{effects_view, emit_effects, push_emit, push_window_ops, window_effects, Effect, EffectView};
use crate::menu::{action_of, MenuAction};
use crate::notify::{emit, emitted};
use crate::window::{hide_ops, hide_window, show_and_focus, show_and_focus_ops, toggle, toggle_ops, WindowProbe};

verus! {

/// A button of the pointer.
#[derive(Clone, Copy, Debug, PartialEq, Eq, Structural)]
pub enum MouseButton {
    Left,
    Right,
    Middle,
}

/// An event from the tray: an entry of the menu was selected, or the icon
/// was clicked.
#[derive(Clone, Debug)]
pub enum TrayEvent {
    MenuSelected { id: String },
    IconClicked { button: MouseButton },
}

/// A tray event as a plain value.
pub ghost enum TrayEventView {
    MenuSelected { id: Seq<char> },
    IconClicked { button: MouseButton },
}

impl View for TrayEvent {
    type V = TrayEventView;

    open spec fn view(&self) -> TrayEventView {
        match *self {
            TrayEvent::MenuSelected { id } => TrayEventView::MenuSelected { id: id@ },
            TrayEvent::IconClicked { button } => TrayEventView::IconClicked { button },
        }
    }
}

/// The name under which the user interface listens for an application to
/// open.
pub open spec fn open_app_channel() -> Seq<char> {
    "open-app"@
}

/// The status with which the process ends on request.
pub const EXIT_STATUS: i32 = 0;

impl MenuAction {
    /// The application that the action opens in the user interface, for the
    /// three actions that open one.
    pub open spec fn app_text(self) -> Option<Seq<char>> {
        match self {
            MenuAction::NewProject => Some("projects"@),
            MenuAction::Terminal => Some("terminal"@),
            MenuAction::Achievements => Some("achievements"@),
            _ => None,
        }
    }

    pub fn app(self) -> (app: Option<&'static str>)
        ensures
            app.is_some() == self.app_text().is_some(),
            app.is_some() ==> app.unwrap()@ == self.app_text().unwrap(),
    {
        match self {
            MenuAction::NewProject => Some("projects"),
            MenuAction::Terminal => Some("terminal"),
            MenuAction::Achievements => Some("achievements"),
            _ => None,
        }
    }
}

/// Opening an application: the window is shown and focused first, then the
/// user interface is told which application to open. Nothing happens where
/// the window is absent.
pub open spec fn open_app_plan(window: WindowProbe, app: Seq<char>) -> Seq<EffectView> {
    window_effects(show_and_focus_ops(window)) + emit_effects(emitted(window, open_app_channel(), app))
}

/// The effects of a menu action, in the order in which they are due.
pub open spec fn menu_plan(action: MenuAction, window: WindowProbe) -> Seq<EffectView> {
    match action {
        MenuAction::Show => window_effects(show_and_focus_ops(window)),
        MenuAction::Hide => window_effects(hide_ops(window)),
        MenuAction::Quit => seq![EffectView::Exit(EXIT_STATUS)],
        _ => open_app_plan(window, action.app_text().unwrap()),
    }
}

/// The effects of a tray event, in the order in which they are due. An
/// identifier that names no action has none, and neither has a click with
/// another button than the left one.
pub open spec fn route_plan(event: TrayEventView, window: WindowProbe) -> Seq<EffectView> {
    match event {
        TrayEventView::MenuSelected { id } => match action_of(id) {
            Some(action) => menu_plan(action, window),
            None => Seq::empty(),
        },
        TrayEventView::IconClicked { button } => if button == MouseButton::Left {
            window_effects(toggle_ops(window))
        } else {
            Seq::empty()
        },
    }
}

/// The effects of a menu action on a window as it was probed.
pub fn route_action(action: MenuAction, window: WindowProbe) -> (effects: Vec<Effect>)
    ensures
        effects_view(effects@) == menu_plan(action, window),
{
    let mut effects: Vec<Effect> = Vec::new();
    assert(effects_view(effects@) =~= Seq::<EffectView>::empty());
    match action {
        MenuAction::Show => {
            let ops = show_and_focus(window);
            push_window_ops(&mut effects, &ops);
        },
        MenuAction::Hide => {
            let ops = hide_window(window);
            push_window_ops(&mut effects, &ops);
        },
        MenuAction::Quit => {
            effects.push(Effect::Exit(EXIT_STATUS));
        },
        _ => {
            let ops = show_and_focus(window);
            push_window_ops(&mut effects, &ops);
            match action.app() {
                Some(app) => {
                    let event = emit(window, "open-app", app);
                    push_emit(&mut effects, event);
                },
                None => {},
            }
        },
    }
    assert(effects_view(effects@) =~= menu_plan(action, window));
    effects
}

/// The effects of a tray event on a window as it was probed.
pub fn route(event: &TrayEvent, window: WindowProbe) -> (effects: Vec<Effect>)
    ensures
        effects_view(effects@) == route_plan(event@, window),
{
    match event {
        TrayEvent::MenuSelected { id } => match MenuAction::from_id(id.as_str()) {
            Some(action) => route_action(action, window),
            None => {
                let effects: Vec<Effect> = Vec::new();
                assert(effects_view(effects@) =~= Seq::<EffectView>::empty());
                effects
            },
        },
        TrayEvent::IconClicked { button } => {
            let mut effects: Vec<Effect> = Vec::new();
            assert(effects_view(effects@) =~= Seq::<EffectView>::empty());
            match button {
                MouseButton::Left => {
                    let ops = toggle(window);
                    push_window_ops(&mut effects, &ops);
                },
                _ => {},
            }
            assert(effects_view(effects@) =~= route_plan(event@, window));
            effects
        },
    }
}

} // verus!
