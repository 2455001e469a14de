//! The tray and menu core of a desktop shell: which window operations and
//! which notifications follow from a menu selection or a click on the tray
//! icon. Every decision is a function from plain values to an ordered list
//! of effects; performing the effects is left to the embedding program.

pub mod desktop;
pub mod effect;
pub mod greeting;
pub mod laws;
pub mod menu;
pub mod notify;
pub mod router;
pub mod text;
pub mod window;
