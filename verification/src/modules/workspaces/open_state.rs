//! How open a workspace is, as its button shows it.

use vstd::prelude::*;

verus! {

/// The state of a workspace as its button shows it.
#[derive(Debug, Clone, Copy, PartialEq, Eq, Structural)]
pub enum OpenState {
    /// The workspace has a button but does not exist at the moment.
    Closed,
    /// The workspace exists and no monitor shows it.
    Hidden,
    /// A monitor shows the workspace, which does not have the focus.
    Visible,
    /// The workspace has the focus.
    Focused,
}

impl OpenState {
    /// Whether the workspace is on screen, focused or not.
    pub fn is_visible(self) -> (visible: bool)
        ensures
            visible == (self == OpenState::Visible || self == OpenState::Focused),
    {
        match self {
            OpenState::Visible => true,
            OpenState::Focused => true,
            _ => false,
        }
    }
}

} // verus!
