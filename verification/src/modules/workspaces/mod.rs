//! The workspace switcher: one button for each workspace.

pub mod button;
pub mod open_state;
