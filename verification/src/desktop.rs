//! A desktop in miniature: one window that may be missing, the events that
//! reached the user interface, and whether the process has ended. It performs
//! effects the way a cooperative platform would, every operation succeeding,
//! so that what routing does to a window can be stated and run without a
//! windowing runtime.

use vstd::prelude::*;
use crate::effect::{effects_view, Effect, EffectView};
use crate::notify::{AppEvent, AppEventView};
use crate::router::{route, route_plan, TrayEvent, TrayEventView};
use crate::window::{Visibility, WindowOp, WindowProbe};

verus! {

/// The state of a window that exists.
#[derive(Clone, Copy, Debug, PartialEq, Eq, Structural)]
pub struct Pane {
    pub visible: bool,
    pub focused: bool,
}

/// The desktop: its window, the events sent so far in the order of sending,
/// and the exit status once the process has ended.
#[derive(Debug)]
pub struct Desktop {
    pub window: Option<Pane>,
    pub sent: Vec<AppEvent>,
    pub exit_status: Option<i32>,
}

/// A desktop as a plain value.
pub ghost struct DesktopView {
    pub window: Option<Pane>,
    pub sent: Seq<AppEventView>,
    pub exit_status: Option<i32>,
}

impl View for Desktop {
    type V = DesktopView;

    open spec fn view(&self) -> DesktopView {
        DesktopView {
            window: self.window,
            sent: self.sent@.map_values(|e: AppEvent| e@),
            exit_status: self.exit_status,
        }
    }
}

/// What looking the window up and asking for its visibility gives.
pub open spec fn probe_of(d: DesktopView) -> WindowProbe {
    match d.window {
        None => WindowProbe::Absent,
        Some(pane) => WindowProbe::Present(
            if pane.visible {
                Visibility::Visible
            } else {
                Visibility::Hidden
            },
        ),
    }
}

/// The window after one operation on it.
pub open spec fn pane_after(pane: Pane, op: WindowOp) -> Pane {
    match op {
        WindowOp::Show => Pane { visible: true, focused: pane.focused },
        WindowOp::SetFocus => Pane { visible: pane.visible, focused: true },
        WindowOp::Hide => Pane { visible: false, focused: false },
    }
}

/// The desktop after one effect. Once the process has ended nothing changes
/// any more; an operation on a missing window and an event sent through one
/// are lost.
pub open spec fn after_effect(d: DesktopView, effect: EffectView) -> DesktopView {
    if d.exit_status.is_some() {
        d
    } else {
        match effect {
            EffectView::Window(op) => match d.window {
                Some(pane) => DesktopView { window: Some(pane_after(pane, op)), ..d },
                None => d,
            },
            EffectView::Emit(event) => match d.window {
                Some(_) => DesktopView { sent: d.sent.push(event), ..d },
                None => d,
            },
            EffectView::Exit(status) => DesktopView { exit_status: Some(status), ..d },
        }
    }
}

/// The desktop after a list of effects, performed from first to last.
pub open spec fn after_effects(d: DesktopView, effects: Seq<EffectView>) -> DesktopView
    decreases effects.len(),
{
    if effects.len() == 0 {
        d
    } else {
        after_effect(after_effects(d, effects.drop_last()), effects.last())
    }
}

/// The effects that an event has on a desktop: none once the process has
/// ended, else what the router gives for the window as it is.
pub open spec fn dispatch_plan(d: DesktopView, event: TrayEventView) -> Seq<EffectView> {
    if d.exit_status.is_some() {
        Seq::empty()
    } else {
        route_plan(event, probe_of(d))
    }
}

/// The desktop after an event was routed and its effects performed.
pub open spec fn after_event(d: DesktopView, event: TrayEventView) -> DesktopView {
    after_effects(d, dispatch_plan(d, event))
}

/// Performing one more effect after a list is performing the longer list.
pub proof fn lemma_after_push(d: DesktopView, effects: Seq<EffectView>, effect: EffectView)
    ensures
        after_effects(d, effects.push(effect)) == after_effect(after_effects(d, effects), effect),
{
    assert(effects.push(effect).drop_last() =~= effects);
}

impl Desktop {
    /// A running desktop with the given window and nothing sent yet.
    pub fn new(window: Option<Pane>) -> (desktop: Desktop)
        ensures
            desktop@ == (DesktopView { window, sent: Seq::empty(), exit_status: None }),
    {
        let desktop = Desktop { window, sent: Vec::new(), exit_status: None };
        assert(desktop@.sent =~= Seq::empty());
        desktop
    }

    /// Looks the window up and asks for its visibility.
    pub fn probe(&self) -> (window: WindowProbe)
        ensures
            window == probe_of(self@),
    {
        match self.window {
            None => WindowProbe::Absent,
            Some(pane) => if pane.visible {
                WindowProbe::Present(Visibility::Visible)
            } else {
                WindowProbe::Present(Visibility::Hidden)
            },
        }
    }

    /// Performs one effect.
    pub fn apply(&mut self, effect: &Effect)
        ensures
            final(self)@ == after_effect(old(self)@, effect@),
    {
        if self.exit_status.is_some() {
            return ;
        }
        match effect {
            Effect::Window(op) => {
                match self.window {
                    Some(pane) => {
                        let next = match op {
                            WindowOp::Show => Pane { visible: true, focused: pane.focused },
                            WindowOp::SetFocus => Pane { visible: pane.visible, focused: true },
                            WindowOp::Hide => Pane { visible: false, focused: false },
                        };
                        self.window = Some(next);
                    },
                    None => {},
                }
            },
            Effect::Emit(event) => {
                if self.window.is_some() {
                    let copy = AppEvent { name: event.name.clone(), payload: event.payload.clone() };
                    self.sent.push(copy);
                    assert(self@.sent =~= old(self)@.sent.push(event@));
                }
            },
            Effect::Exit(status) => {
                self.exit_status = Some(*status);
            },
        }
    }

    /// Performs a list of effects from first to last.
    pub fn apply_all(&mut self, effects: &Vec<Effect>)
        ensures
            final(self)@ == after_effects(old(self)@, effects_view(effects@)),
    {
        let mut i: usize = 0;
        while i < effects.len()
            invariant
                i <= effects@.len(),
                self@ == after_effects(old(self)@, effects_view(effects@).take(i as int)),
            decreases effects@.len() - i,
        {
            proof {
                let all = effects_view(effects@);
                assert(all.take(i + 1) =~= all.take(i as int).push(effects@[i as int]@));
                lemma_after_push(old(self)@, all.take(i as int), effects@[i as int]@);
            }
            self.apply(&effects[i]);
            i += 1;
        }
        assert(effects_view(effects@).take(i as int) =~= effects_view(effects@));
    }

    /// Routes an event on this desktop and performs what the router asks
    /// for. The effects performed are returned; once the process has ended
    /// no event is routed any more.
    pub fn dispatch(&mut self, event: &TrayEvent) -> (effects: Vec<Effect>)
        ensures
            effects_view(effects@) == dispatch_plan(old(self)@, event@),
            final(self)@ == after_event(old(self)@, event@),
    {
        if self.exit_status.is_some() {
            let effects: Vec<Effect> = Vec::new();
            assert(effects_view(effects@) =~= Seq::<EffectView>::empty());
            return effects;
        }
        let effects = route(event, self.probe());
        self.apply_all(&effects);
        effects
    }
}

} // verus!
