//! The button of one workspace: which workspace it stands for, what it is
//! labelled with, and which style classes it carries.

use super::open_state::OpenState;
use vstd::prelude::*;

verus! {

/// Which style classes a button carries. Each class is either on the
/// button or off it.
#[derive(Debug, Clone, Copy, PartialEq, Eq, Structural)]
pub struct Classes {
    /// The class `visible`.
    pub visible: bool,
    /// The class `focused`.
    pub focused: bool,
    /// The class `inactive`.
    pub inactive: bool,
}

/// The button of one workspace.
#[derive(Debug)]
pub struct Button {
    label: String,
    workspace_id: i64,
    open_state: OpenState,
}

/// The mathematical value of a [`Button`].
pub struct ButtonView {
    pub label: Seq<char>,
    pub workspace_id: int,
    pub open_state: OpenState,
}

impl View for Button {
    type V = ButtonView;

    closed spec fn view(&self) -> ButtonView {
        ButtonView {
            label: self.label@,
            workspace_id: self.workspace_id as int,
            open_state: self.open_state,
        }
    }
}

impl Clone for Button {
    fn clone(&self) -> (copy: Self)
        ensures
            copy@ == self@,
    {
        Button {
            label: self.label.clone(),
            workspace_id: self.workspace_id,
            open_state: self.open_state,
        }
    }
}

/// The classes that go with an open state: `visible` while the workspace
/// is on screen, `focused` while it has the focus, `inactive` while it is
/// closed.
pub open spec fn classes_of(open_state: OpenState) -> Classes {
    Classes {
        visible: open_state == OpenState::Visible || open_state == OpenState::Focused,
        focused: open_state == OpenState::Focused,
        inactive: open_state == OpenState::Closed,
    }
}

impl Button {
    /// A button for the workspace `id` named `name`. It is labelled with
    /// `mapped_name`, the name that the configuration puts in place of the
    /// workspace's own, where there is one, and else with `name`.
    pub fn new(id: i64, name: &str, open_state: OpenState, mapped_name: Option<&str>) -> (button:
        Self)
        ensures
            button@ == (ButtonView {
                label: match mapped_name {
                    Some(mapped) => mapped@,
                    None => name@,
                },
                workspace_id: id as int,
                open_state,
            }),
    {
        let label = match mapped_name {
            Some(mapped) => mapped.to_owned(),
            None => name.to_owned(),
        };
        Button { label, workspace_id: id, open_state }
    }

    /// The text on the button.
    pub fn label(&self) -> (label: &String)
        ensures
            label@ == self@.label,
    {
        &self.label
    }

    /// The state that the button shows.
    pub fn open_state(&self) -> (open_state: OpenState)
        ensures
            open_state == self@.open_state,
    {
        self.open_state
    }

    /// Shows another state. The classes to put on the button afterwards
    /// are those of [`Button::update_classes`].
    pub fn set_open_state(&mut self, open_state: OpenState)
        ensures
            final(self)@ == (ButtonView { open_state, ..old(self)@ }),
    {
        self.open_state = open_state;
    }

    /// The identifier of the workspace that the button stands for.
    pub fn workspace_id(&self) -> (id: i64)
        ensures
            id == self@.workspace_id,
    {
        self.workspace_id
    }

    /// Makes the button stand for another workspace.
    pub fn set_workspace_id(&mut self, id: i64)
        ensures
            final(self)@ == (ButtonView { workspace_id: id as int, ..old(self)@ }),
    {
        self.workspace_id = id;
    }

    /// The styling classes according to the open state: which of them the
    /// button is to carry, and which not.
    pub fn update_classes(&self) -> (classes: Classes)
        ensures
            classes == classes_of(self@.open_state),
    {
        Classes {
            visible: self.open_state.is_visible(),
            focused: self.open_state == OpenState::Focused,
            inactive: self.open_state == OpenState::Closed,
        }
    }
}

} // verus!
