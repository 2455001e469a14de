//! Notifications to the user interface: a named event with a text payload,
//! sent through the main window and never acknowledged.

use vstd::prelude::*;
use crate::window::WindowProbe;

verus! {

/// A named event with its payload.
#[derive(Clone, Debug)]
pub struct AppEvent {
    pub name: String,
    pub payload: String,
}

/// An event as a plain value.
pub ghost struct AppEventView {
    pub name: Seq<char>,
    pub payload: Seq<char>,
}

impl View for AppEvent {
    type V = AppEventView;

    open spec fn view(&self) -> AppEventView {
        AppEventView { name: self.name@, payload: self.payload@ }
    }
}

/// What reaches the channel: nothing where the window is absent, else the
/// event with the given name and payload.
pub open spec fn emitted(window: WindowProbe, name: Seq<char>, payload: Seq<char>) -> Option<AppEventView> {
    match window {
        WindowProbe::Absent => None,
        WindowProbe::Present(_) => Some(AppEventView { name, payload }),
    }
}

/// The event to send through the window, if the window is there to carry it.
pub fn emit(window: WindowProbe, name: &str, payload: &str) -> (event: Option<AppEvent>)
    ensures
        event.is_some() == emitted(window, name@, payload@).is_some(),
        event.is_some() ==> event.unwrap()@ == emitted(window, name@, payload@).unwrap(),
{
    match window {
        WindowProbe::Absent => None,
        WindowProbe::Present(_) => Some(AppEvent { name: name.to_owned(), payload: payload.to_owned() }),
    }
}

} // verus!
