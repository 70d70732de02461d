//! The values a compositor client publishes: workspaces, how visible each
//! one is, and the update events that describe every change to them.

use vstd::prelude::*;

pub mod hyprland;

verus! {

/// How a workspace is currently shown.
///
/// At most one workspace is `Focused` at a time. A workspace is `Visible`
/// when some monitor shows it although it does not have the focus.
#[derive(Debug, Clone, Copy, PartialEq, Eq, Structural)]
pub enum Visibility {
    Focused,
    Visible,
    Hidden,
}

impl Visibility {
    /// Shown on a monitor, without the focus.
    pub fn visible() -> (v: Self)
        ensures
            v == Visibility::Visible,
    {
        Visibility::Visible
    }

    /// Shown on a monitor and receiving input.
    pub fn focused() -> (v: Self)
        ensures
            v == Visibility::Focused,
    {
        Visibility::Focused
    }

    /// Whether the workspace has the focus.
    pub fn is_focused(self) -> (b: bool)
        ensures
            b == (self == Visibility::Focused),
    {
        match self {
            Visibility::Focused => true,
            _ => false,
        }
    }
}

/// A workspace as subscribers see it.
#[derive(Debug, PartialEq, Eq)]
pub struct Workspace {
    /// Identifier, unique among the live workspaces.
    pub id: i64,
    /// Name, unique among the live workspaces.
    pub name: String,
    /// Name of the monitor the workspace is assigned to.
    pub monitor: String,
    /// How the workspace is currently shown.
    pub visibility: Visibility,
}

/// The mathematical value of a [`Workspace`].
pub struct WorkspaceView {
    pub id: int,
    pub name: Seq<char>,
    pub monitor: Seq<char>,
    pub visibility: Visibility,
}

impl View for Workspace {
    type V = WorkspaceView;

    open spec fn view(&self) -> WorkspaceView {
        WorkspaceView {
            id: self.id as int,
            name: self.name@,
            monitor: self.monitor@,
            visibility: self.visibility,
        }
    }
}

impl DeepView for Workspace {
    type V = WorkspaceView;

    open spec fn deep_view(&self) -> WorkspaceView {
        self@
    }
}

impl Clone for Workspace {
    fn clone(&self) -> (copy: Self)
        ensures
            copy@ == self@,
    {
        Workspace {
            id: self.id,
            name: self.name.clone(),
            monitor: self.monitor.clone(),
            visibility: self.visibility,
        }
    }
}

/// A change to the set of workspaces, as published to subscribers.
#[derive(Debug, PartialEq, Eq)]
pub enum WorkspaceUpdate {
    /// The full list of workspaces, sent once to each new subscriber.
    Init(Vec<Workspace>),
    /// A workspace came into being.
    Add(Workspace),
    /// The workspace with this identifier is gone.
    Remove(i64),
    /// A workspace went to another monitor.
    Move(Workspace),
    /// A workspace got a new name.
    Rename { id: i64, name: String },
    /// The focus went from `old`, where one was known, to `new`, which is
    /// marked focused.
    Focus { old: Option<Workspace>, new: Workspace },
    /// A workspace started or stopped asking for attention.
    Urgent { id: i64, urgent: bool },
}

/// The mathematical value of a [`WorkspaceUpdate`].
pub enum WorkspaceUpdateView {
    Init(Seq<WorkspaceView>),
    Add(WorkspaceView),
    Remove(int),
    Move(WorkspaceView),
    Rename { id: int, name: Seq<char> },
    Focus { old: Option<WorkspaceView>, new: WorkspaceView },
    Urgent { id: int, urgent: bool },
}

impl View for WorkspaceUpdate {
    type V = WorkspaceUpdateView;

    open spec fn view(&self) -> WorkspaceUpdateView {
        match self {
            WorkspaceUpdate::Init(workspaces) => WorkspaceUpdateView::Init(
                workspaces.deep_view(),
            ),
            WorkspaceUpdate::Add(workspace) => WorkspaceUpdateView::Add(workspace@),
            WorkspaceUpdate::Remove(id) => WorkspaceUpdateView::Remove(*id as int),
            WorkspaceUpdate::Move(workspace) => WorkspaceUpdateView::Move(workspace@),
            WorkspaceUpdate::Rename { id, name } => WorkspaceUpdateView::Rename {
                id: *id as int,
                name: name@,
            },
            WorkspaceUpdate::Focus { old, new } => WorkspaceUpdateView::Focus {
                old: old.deep_view(),
                new: new@,
            },
            WorkspaceUpdate::Urgent { id, urgent } => WorkspaceUpdateView::Urgent {
                id: *id as int,
                urgent: *urgent,
            },
        }
    }
}

impl DeepView for WorkspaceUpdate {
    type V = WorkspaceUpdateView;

    open spec fn deep_view(&self) -> WorkspaceUpdateView {
        self@
    }
}

fn clone_all(workspaces: &Vec<Workspace>) -> (copies: Vec<Workspace>)
    ensures
        copies.deep_view() == workspaces.deep_view(),
{
    let mut copies: Vec<Workspace> = Vec::new();
    let mut i: usize = 0;
    while i < workspaces.len()
        invariant
            i <= workspaces.len(),
            copies.len() == i,
            forall|j: int| 0 <= j < i ==> (#[trigger] copies[j])@ == workspaces[j]@,
        decreases workspaces.len() - i,
    {
        copies.push(workspaces[i].clone());
        i += 1;
    }
    copies
}

impl Clone for WorkspaceUpdate {
    fn clone(&self) -> (copy: Self)
        ensures
            copy@ == self@,
    {
        match self {
            WorkspaceUpdate::Init(workspaces) => WorkspaceUpdate::Init(clone_all(workspaces)),
            WorkspaceUpdate::Add(workspace) => WorkspaceUpdate::Add(workspace.clone()),
            WorkspaceUpdate::Remove(id) => WorkspaceUpdate::Remove(*id),
            WorkspaceUpdate::Move(workspace) => WorkspaceUpdate::Move(workspace.clone()),
            WorkspaceUpdate::Rename { id, name } => WorkspaceUpdate::Rename {
                id: *id,
                name: name.clone(),
            },
            WorkspaceUpdate::Focus { old: Some(old), new } => WorkspaceUpdate::Focus {
                old: Some(old.clone()),
                new: new.clone(),
            },
            WorkspaceUpdate::Focus { old: None, new } => WorkspaceUpdate::Focus {
                old: None,
                new: new.clone(),
            },
            WorkspaceUpdate::Urgent { id, urgent } => WorkspaceUpdate::Urgent {
                id: *id,
                urgent: *urgent,
            },
        }
    }
}

/// The keyboard layout that became active, by name.
#[derive(Debug, PartialEq, Eq)]
pub struct KeyboardLayoutUpdate(pub String);

impl Clone for KeyboardLayoutUpdate {
    fn clone(&self) -> (copy: Self)
        ensures
            copy@ == self@,
    {
        KeyboardLayoutUpdate(self.0.clone())
    }
}

impl View for KeyboardLayoutUpdate {
    type V = Seq<char>;

    open spec fn view(&self) -> Seq<char> {
        self.0@
    }
}

impl DeepView for KeyboardLayoutUpdate {
    type V = Seq<char>;

    open spec fn deep_view(&self) -> Seq<char> {
        self@
    }
}

} // verus!
