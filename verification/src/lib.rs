//! Workspace and keyboard-layout state of a status bar, kept in step with a
//! window compositor, together with the paging and styling rules of the
//! widgets that show it.
//!
//! The compositor reports changes as a stream of partial notifications. The
//! [`clients::compositor`] module turns each notification, together with a
//! fresh snapshot of the compositor's state, into ordered update events and
//! fans them out to any number of subscribers. The [`modules`] hold the
//! decisions behind the widgets: which launcher items a page shows and which
//! style classes a workspace button carries.

pub mod clients;
pub mod modules;
