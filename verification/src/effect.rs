//! The side effects that routing an event can ask for.

use vstd::prelude::*;
use crate::notify::{AppEvent, AppEventView};
use crate::window::WindowOp;

verus! {

/// One side effect, to be performed by the embedding program.
#[derive(Clone, Debug)]
pub enum Effect {
    /// Perform an operation on the main window.
    Window(WindowOp),
    /// Send an event to the user interface.
    Emit(AppEvent),
    /// End the process with the given status.
    Exit(i32),
}

/// An effect as a plain value.
pub ghost enum EffectView {
    Window(WindowOp),
    Emit(AppEventView),
    Exit(i32),
}

impl View for Effect {
    type V = EffectView;

    open spec fn view(&self) -> EffectView {
        match *self {
            Effect::Window(op) => EffectView::Window(op),
            Effect::Emit(event) => EffectView::Emit(event@),
            Effect::Exit(status) => EffectView::Exit(status),
        }
    }
}

/// A list of effects as plain values, in the same order.
pub open spec fn effects_view(effects: Seq<Effect>) -> Seq<EffectView> {
    effects.map_values(|e: Effect| e@)
}

/// Window operations as effects, in the same order.
pub open spec fn window_effects(ops: Seq<WindowOp>) -> Seq<EffectView> {
    ops.map_values(|op: WindowOp| EffectView::Window(op))
}

/// An event that may be missing as a list of at most one effect.
pub open spec fn emit_effects(event: Option<AppEventView>) -> Seq<EffectView> {
    match event {
        Some(e) => seq![EffectView::Emit(e)],
        None => Seq::empty(),
    }
}

/// Appends window operations to a list of effects.
pub fn push_window_ops(effects: &mut Vec<Effect>, ops: &Vec<WindowOp>)
    ensures
        effects_view(final(effects)@) == effects_view(old(effects)@) + window_effects(ops@),
{
    let mut i: usize = 0;
    while i < ops.len()
        invariant
            i <= ops@.len(),
            effects_view(effects@) == effects_view(old(effects)@) + window_effects(ops@.take(i as int)),
        decreases ops@.len() - i,
    {
        let ghost before = effects@;
        effects.push(Effect::Window(ops[i]));
        assert(effects_view(effects@) =~= effects_view(before).push(EffectView::Window(ops@[i as int])));
        assert(window_effects(ops@.take(i + 1)) =~= window_effects(ops@.take(i as int)).push(
            EffectView::Window(ops@[i as int]),
        ));
        i += 1;
    }
    assert(ops@.take(i as int) =~= ops@);
}

/// Appends the sending of an event, if there is one to send.
pub fn push_emit(effects: &mut Vec<Effect>, event: Option<AppEvent>)
    ensures
        effects_view(final(effects)@) == effects_view(old(effects)@) + emit_effects(
            match event {
                Some(e) => Some(e@),
                None => None,
            },
        ),
{
    match event {
        Some(e) => {
            effects.push(Effect::Emit(e));
            assert(effects_view(effects@) =~= effects_view(old(effects)@) + seq![EffectView::Emit(e@)]);
        },
        None => {
            assert(effects_view(effects@) =~= effects_view(old(effects)@) + Seq::<EffectView>::empty());
        },
    }
}

} // verus!
