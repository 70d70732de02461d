//! The decisions behind the bar's widgets. Drawing them is left to the
//! caller.

pub mod launcher;
pub mod workspaces;
