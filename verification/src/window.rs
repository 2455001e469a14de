//! Visibility control of the single main window.
//!
//! The window itself lives in the windowing runtime. What this module sees of
//! it is a probe taken at the moment of an event, and what it hands back is
//! the ordered list of operations to perform on the window. A failing
//! operation is simply skipped by whoever performs the list.

use vstd::prelude::*;

verus! {

/// The logical name under which the main window is looked up.
pub const MAIN_WINDOW: &'static str = "main";

/// What a visibility query answered.
#[derive(Clone, Copy, Debug, PartialEq, Eq, Structural)]
pub enum Visibility {
    Visible,
    Hidden,
    /// The query could not be answered; treated as not visible.
    Unknown,
}

/// The result of looking the main window up by name.
#[derive(Clone, Copy, Debug, PartialEq, Eq, Structural)]
pub enum WindowProbe {
    /// No window of that name exists at the moment.
    Absent,
    /// The window exists, with the answer of its visibility query.
    Present(Visibility),
}

/// One operation on the window handle.
#[derive(Clone, Copy, Debug, PartialEq, Eq, Structural)]
pub enum WindowOp {
    Show,
    SetFocus,
    Hide,
}

/// Whether a probe counts as a window on screen. An absent window and an
/// unanswered query both count as not shown.
pub open spec fn shown(window: WindowProbe) -> bool {
    window == WindowProbe::Present(Visibility::Visible)
}

/// Operations that make the window visible and focused: none for an absent
/// window, else show followed by focus.
pub open spec fn show_and_focus_ops(window: WindowProbe) -> Seq<WindowOp> {
    match window {
        WindowProbe::Absent => Seq::empty(),
        WindowProbe::Present(_) => seq![WindowOp::Show, WindowOp::SetFocus],
    }
}

/// Operations that hide the window: none for an absent window.
pub open spec fn hide_ops(window: WindowProbe) -> Seq<WindowOp> {
    match window {
        WindowProbe::Absent => Seq::empty(),
        WindowProbe::Present(_) => seq![WindowOp::Hide],
    }
}

/// Operations that flip visibility: a shown window is hidden, any other
/// present window is shown and focused.
pub open spec fn toggle_ops(window: WindowProbe) -> Seq<WindowOp> {
    if shown(window) {
        hide_ops(window)
    } else {
        show_and_focus_ops(window)
    }
}

/// The operations that bring the window up.
pub fn show_and_focus(window: WindowProbe) -> (ops: Vec<WindowOp>)
    ensures
        ops@ == show_and_focus_ops(window),
{
    let mut ops: Vec<WindowOp> = Vec::new();
    match window {
        WindowProbe::Absent => {},
        WindowProbe::Present(_) => {
            ops.push(WindowOp::Show);
            ops.push(WindowOp::SetFocus);
        },
    }
    assert(ops@ =~= show_and_focus_ops(window));
    ops
}

/// The operations that put the window away.
pub fn hide_window(window: WindowProbe) -> (ops: Vec<WindowOp>)
    ensures
        ops@ == hide_ops(window),
{
    let mut ops: Vec<WindowOp> = Vec::new();
    match window {
        WindowProbe::Absent => {},
        WindowProbe::Present(_) => {
            ops.push(WindowOp::Hide);
        },
    }
    assert(ops@ =~= hide_ops(window));
    ops
}

/// The operations that flip the window between shown and hidden.
pub fn toggle(window: WindowProbe) -> (ops: Vec<WindowOp>)
    ensures
        ops@ == toggle_ops(window),
{
    match window {
        WindowProbe::Present(Visibility::Visible) => hide_window(window),
        _ => show_and_focus(window),
    }
}

} // verus!
