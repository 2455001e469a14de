//! What holds of routing on every desktop: which state each event leaves
//! behind, in which order effects come, and which events have none.

use vstd::prelude::*;
use crate::desktop::{after_effect, after_effects, after_event, dispatch_plan, lemma_after_push, probe_of, DesktopView, Pane};
use crate::effect::{window_effects, EffectView};
use crate::menu::{action_of, MenuAction};
use crate::notify::AppEventView;
use crate::router::{open_app_channel, open_app_plan, route_plan, MouseButton, TrayEventView};
use crate::window::{hide_ops, show_and_focus_ops, shown, toggle_ops, WindowOp, WindowProbe};

verus! {

/// Whether an effect changes the visibility of the window.
pub open spec fn changes_visibility(effect: EffectView) -> bool {
    effect == EffectView::Window(WindowOp::Show) || effect == EffectView::Window(WindowOp::Hide)
}

/// The window shown and focused.
pub open spec fn in_front() -> Pane {
    Pane { visible: true, focused: true }
}

/// The window hidden, and so without focus.
pub open spec fn out_of_sight() -> Pane {
    Pane { visible: false, focused: false }
}

/// The plans of the visibility controller and of the router written out:
/// nothing for an absent window; for a present one, show then focus, or a
/// single hide, followed for an application by the one event that opens it.
pub proof fn lemma_plans_explicit(window: WindowProbe, app: Seq<char>)
    ensures
        window == WindowProbe::Absent ==> {
            &&& window_effects(show_and_focus_ops(window)) == Seq::<EffectView>::empty()
            &&& window_effects(hide_ops(window)) == Seq::<EffectView>::empty()
            &&& window_effects(toggle_ops(window)) == Seq::<EffectView>::empty()
            &&& open_app_plan(window, app) == Seq::<EffectView>::empty()
        },
        window != WindowProbe::Absent ==> {
            &&& window_effects(show_and_focus_ops(window)) == seq![
                EffectView::Window(WindowOp::Show),
                EffectView::Window(WindowOp::SetFocus),
            ]
            &&& window_effects(hide_ops(window)) == seq![EffectView::Window(WindowOp::Hide)]
            &&& window_effects(toggle_ops(window)) == if shown(window) {
                seq![EffectView::Window(WindowOp::Hide)]
            } else {
                seq![EffectView::Window(WindowOp::Show), EffectView::Window(WindowOp::SetFocus)]
            }
            &&& open_app_plan(window, app) == seq![
                EffectView::Window(WindowOp::Show),
                EffectView::Window(WindowOp::SetFocus),
                EffectView::Emit(AppEventView { name: open_app_channel(), payload: app }),
            ]
        },
{
    if window == WindowProbe::Absent {
        assert(window_effects(show_and_focus_ops(window)) =~= Seq::<EffectView>::empty());
        assert(window_effects(hide_ops(window)) =~= Seq::<EffectView>::empty());
        assert(window_effects(toggle_ops(window)) =~= Seq::<EffectView>::empty());
        assert(open_app_plan(window, app) =~= Seq::<EffectView>::empty());
    } else {
        assert(window_effects(show_and_focus_ops(window)) =~= seq![
            EffectView::Window(WindowOp::Show),
            EffectView::Window(WindowOp::SetFocus),
        ]);
        assert(window_effects(hide_ops(window)) =~= seq![EffectView::Window(WindowOp::Hide)]);
        assert(open_app_plan(window, app) =~= seq![
            EffectView::Window(WindowOp::Show),
            EffectView::Window(WindowOp::SetFocus),
            EffectView::Emit(AppEventView { name: open_app_channel(), payload: app }),
        ]);
    }
}

/// The desktop after no effect, after one, after two and after three.
pub proof fn lemma_after_short(d: DesktopView, a: EffectView, b: EffectView, c: EffectView)
    ensures
        after_effects(d, Seq::empty()) == d,
        after_effects(d, seq![a]) == after_effect(d, a),
        after_effects(d, seq![a, b]) == after_effect(after_effect(d, a), b),
        after_effects(d, seq![a, b, c]) == after_effect(after_effect(after_effect(d, a), b), c),
{
    lemma_after_push(d, Seq::empty(), a);
    lemma_after_push(d, seq![a], b);
    lemma_after_push(d, seq![a, b], c);
    assert(seq![a] =~= Seq::<EffectView>::empty().push(a));
    assert(seq![a, b] =~= seq![a].push(b));
    assert(seq![a, b, c] =~= seq![a, b].push(c));
}

/// A menu action other than quit never ends the process and changes
/// visibility at most once. On a missing window it changes nothing. On a
/// window that exists, hide leaves it hidden and every other action leaves
/// it shown and focused; an action that opens an application sends the one
/// event that names it, and show and hide send nothing.
pub proof fn law_menu_action_sets_visibility(d: DesktopView, id: Seq<char>, action: MenuAction)
    requires
        d.exit_status.is_none(),
        action_of(id) == Some(action),
        action != MenuAction::Quit,
    ensures
        ({
            let plan = route_plan(TrayEventView::MenuSelected { id }, probe_of(d));
            forall|i: int, j: int|
                0 <= i < plan.len() && 0 <= j < plan.len() && changes_visibility(#[trigger] plan[i])
                    && changes_visibility(#[trigger] plan[j]) ==> i == j
        }),
        ({
            let next = after_event(d, TrayEventView::MenuSelected { id });
            &&& next.exit_status.is_none()
            &&& d.window.is_none() ==> next == d
            &&& d.window.is_some() && action == MenuAction::Hide ==> next.window == Some(out_of_sight())
            &&& d.window.is_some() && action != MenuAction::Hide ==> next.window == Some(in_front())
            &&& action.app_text().is_none() ==> next.sent == d.sent
            &&& d.window.is_some() && action.app_text().is_some() ==> next.sent == d.sent.push(
                AppEventView { name: open_app_channel(), payload: action.app_text().unwrap() },
            )
        }),
{
    let window = probe_of(d);
    let app = if action.app_text().is_some() {
        action.app_text().unwrap()
    } else {
        Seq::empty()
    };
    lemma_plans_explicit(window, app);
    let show = EffectView::Window(WindowOp::Show);
    let focus = EffectView::Window(WindowOp::SetFocus);
    let gone = EffectView::Window(WindowOp::Hide);
    let tell = EffectView::Emit(AppEventView { name: open_app_channel(), payload: app });
    lemma_after_short(d, show, focus, tell);
    lemma_after_short(d, gone, focus, tell);
}

/// Show is idempotent: selecting it twice leaves the desktop exactly as
/// selecting it once does.
pub proof fn law_show_idempotent(d: DesktopView, id: Seq<char>)
    requires
        action_of(id) == Some(MenuAction::Show),
    ensures
        after_event(after_event(d, TrayEventView::MenuSelected { id }), TrayEventView::MenuSelected { id })
            == after_event(d, TrayEventView::MenuSelected { id }),
{
    let event = TrayEventView::MenuSelected { id };
    let once = after_event(d, event);
    let show = EffectView::Window(WindowOp::Show);
    let focus = EffectView::Window(WindowOp::SetFocus);
    lemma_plans_explicit(probe_of(d), Seq::empty());
    lemma_plans_explicit(probe_of(once), Seq::empty());
    lemma_after_short(d, show, focus, focus);
    lemma_after_short(once, show, focus, focus);
}

/// Hide is idempotent as well: selecting it twice leaves the desktop exactly
/// as selecting it once does.
pub proof fn law_hide_idempotent(d: DesktopView, id: Seq<char>)
    requires
        action_of(id) == Some(MenuAction::Hide),
    ensures
        after_event(after_event(d, TrayEventView::MenuSelected { id }), TrayEventView::MenuSelected { id })
            == after_event(d, TrayEventView::MenuSelected { id }),
{
    let event = TrayEventView::MenuSelected { id };
    let once = after_event(d, event);
    let gone = EffectView::Window(WindowOp::Hide);
    lemma_plans_explicit(probe_of(d), Seq::empty());
    lemma_plans_explicit(probe_of(once), Seq::empty());
    lemma_after_short(d, gone, gone, gone);
    lemma_after_short(once, gone, gone, gone);
}

/// Where an action opens an application, every operation on the window
/// comes before the event is sent; and on a window that exists the event is
/// sent, last, on the channel of that name with the application as payload.
pub proof fn law_window_before_emit(window: WindowProbe, id: Seq<char>, action: MenuAction)
    requires
        action_of(id) == Some(action),
        action.app_text().is_some(),
    ensures
        ({
            let plan = route_plan(TrayEventView::MenuSelected { id }, window);
            &&& forall|i: int, j: int|
                0 <= i < plan.len() && 0 <= j < plan.len() && (#[trigger] plan[i]) is Emit
                    && (#[trigger] plan[j]) is Window ==> j < i
            &&& window != WindowProbe::Absent ==> plan.len() == 3 && plan[0] == EffectView::Window(
                WindowOp::Show,
            ) && plan[2] == EffectView::Emit(
                AppEventView { name: open_app_channel(), payload: action.app_text().unwrap() },
            )
        }),
{
    lemma_plans_explicit(window, action.app_text().unwrap());
}

/// An identifier that names no action has no effect, on any window, and
/// leaves every desktop as it was.
pub proof fn law_unknown_id_ignored(d: DesktopView, window: WindowProbe, id: Seq<char>)
    requires
        action_of(id).is_none(),
    ensures
        route_plan(TrayEventView::MenuSelected { id }, window) == Seq::<EffectView>::empty(),
        after_event(d, TrayEventView::MenuSelected { id }) == d,
{
}

/// A click with the left button flips visibility: a visible window ends
/// hidden, a hidden one ends shown and focused, and a missing window leaves
/// the desktop as it was.
pub proof fn law_left_click_toggles(d: DesktopView)
    requires
        d.exit_status.is_none(),
    ensures
        ({
            let next = after_event(d, TrayEventView::IconClicked { button: MouseButton::Left });
            &&& d.window.is_none() ==> next == d
            &&& d.window.is_some() && d.window.unwrap().visible ==> next.window == Some(out_of_sight())
            &&& d.window.is_some() && !d.window.unwrap().visible ==> next.window == Some(in_front())
            &&& next.sent == d.sent
            &&& next.exit_status.is_none()
        }),
{
    let show = EffectView::Window(WindowOp::Show);
    let focus = EffectView::Window(WindowOp::SetFocus);
    let gone = EffectView::Window(WindowOp::Hide);
    lemma_plans_explicit(probe_of(d), Seq::empty());
    lemma_after_short(d, show, focus, focus);
    lemma_after_short(d, gone, focus, focus);
}

/// A click with any other button has no effect, on any window, and leaves
/// every desktop as it was.
pub proof fn law_other_click_ignored(d: DesktopView, window: WindowProbe, button: MouseButton)
    requires
        button != MouseButton::Left,
    ensures
        route_plan(TrayEventView::IconClicked { button }, window) == Seq::<EffectView>::empty(),
        after_event(d, TrayEventView::IconClicked { button }) == d,
{
}

/// Quit asks for the end of the process with status zero and for nothing
/// else, whether or not the window exists; a running desktop has ended with
/// that status afterwards.
pub proof fn law_quit_exits(d: DesktopView, window: WindowProbe, id: Seq<char>)
    requires
        action_of(id) == Some(MenuAction::Quit),
    ensures
        route_plan(TrayEventView::MenuSelected { id }, window) == seq![EffectView::Exit(0i32)],
        d.exit_status.is_none() ==> after_event(d, TrayEventView::MenuSelected { id }) == (DesktopView {
            exit_status: Some(0i32),
            ..d
        }),
{
    let quit = EffectView::Exit(0i32);
    lemma_after_short(d, quit, quit, quit);
}

/// Once the process has ended no event is routed: every event has no
/// effect and leaves the desktop as it was.
pub proof fn law_nothing_after_exit(d: DesktopView, event: TrayEventView)
    requires
        d.exit_status.is_some(),
    ensures
        dispatch_plan(d, event) == Seq::<EffectView>::empty(),
        after_event(d, event) == d,
{
}

} // verus!
