//! The compositor's own descriptions of workspaces, monitors and client
//! windows, and how they resolve to the workspaces that subscribers see.

use crate::clients::compositor::{Visibility, Workspace, WorkspaceView};
use vstd::prelude::*;

verus! {

/// The name under which the compositor reports a workspace.
#[derive(Debug, PartialEq, Eq)]
pub enum WorkspaceType {
    /// An ordinary, named workspace.
    Regular(String),
    /// The special workspace, which may go without a name.
    Special(Option<String>),
}

impl View for WorkspaceType {
    type V = Seq<char>;

    /// The name the workspace goes by: its own, or the empty name for a
    /// special workspace that has none.
    open spec fn view(&self) -> Seq<char> {
        match self {
            WorkspaceType::Regular(name) => name@,
            WorkspaceType::Special(Some(name)) => name@,
            WorkspaceType::Special(None) => Seq::empty(),
        }
    }
}

impl DeepView for WorkspaceType {
    type V = Seq<char>;

    open spec fn deep_view(&self) -> Seq<char> {
        self@
    }
}

/// A workspace as the compositor describes it.
#[derive(Debug, PartialEq, Eq)]
pub struct HWorkspace {
    pub id: i32,
    pub name: String,
    pub monitor: String,
}

/// The mathematical value of an [`HWorkspace`].
pub struct HWorkspaceView {
    pub id: int,
    pub name: Seq<char>,
    pub monitor: Seq<char>,
}

impl View for HWorkspace {
    type V = HWorkspaceView;

    open spec fn view(&self) -> HWorkspaceView {
        HWorkspaceView { id: self.id as int, name: self.name@, monitor: self.monitor@ }
    }
}

impl DeepView for HWorkspace {
    type V = HWorkspaceView;

    open spec fn deep_view(&self) -> HWorkspaceView {
        self@
    }
}

impl Clone for HWorkspace {
    fn clone(&self) -> (copy: Self)
        ensures
            copy@ == self@,
    {
        HWorkspace { id: self.id, name: self.name.clone(), monitor: self.monitor.clone() }
    }
}

/// A monitor as the compositor describes it: its identifier and the
/// workspace it currently shows.
#[derive(Debug, Clone, Copy, PartialEq, Eq)]
pub struct HMonitor {
    pub id: i128,
    pub active_workspace_id: i32,
}

/// A client window as the compositor describes it: its address and the
/// workspace it is on.
#[derive(Debug, PartialEq, Eq)]
pub struct HClient {
    pub address: String,
    pub workspace_id: i32,
}

/// The mathematical value of an [`HClient`].
pub struct HClientView {
    pub address: Seq<char>,
    pub workspace_id: int,
}

impl View for HClient {
    type V = HClientView;

    open spec fn view(&self) -> HClientView {
        HClientView { address: self.address@, workspace_id: self.workspace_id as int }
    }
}

impl DeepView for HClient {
    type V = HClientView;

    open spec fn deep_view(&self) -> HClientView {
        self@
    }
}

/// A keyboard as the compositor describes it.
#[derive(Debug, PartialEq, Eq)]
pub struct HKeyboard {
    pub name: String,
    /// Whether this is the primary keyboard.
    pub main: bool,
    /// The name of the layout that is active on it.
    pub active_keymap: String,
}

/// The mathematical value of an [`HKeyboard`].
pub struct HKeyboardView {
    pub name: Seq<char>,
    pub main: bool,
    pub active_keymap: Seq<char>,
}

impl View for HKeyboard {
    type V = HKeyboardView;

    open spec fn view(&self) -> HKeyboardView {
        HKeyboardView { name: self.name@, main: self.main, active_keymap: self.active_keymap@ }
    }
}

impl DeepView for HKeyboard {
    type V = HKeyboardView;

    open spec fn deep_view(&self) -> HKeyboardView {
        self@
    }
}

/// The first of `keyboards` that is a primary one, if any is.
pub open spec fn first_main(keyboards: Seq<HKeyboardView>) -> Option<HKeyboardView>
    decreases keyboards.len(),
{
    if keyboards.len() == 0 {
        None
    } else if keyboards[0].main {
        Some(keyboards[0])
    } else {
        first_main(keyboards.drop_first())
    }
}

/// The monitors, if the compositor reported them, as a sequence.
pub open spec fn monitors_view(monitors: Option<Vec<HMonitor>>) -> Option<Seq<HMonitor>> {
    match monitors {
        Some(monitors) => Some(monitors@),
        None => None,
    }
}

/// The monitors to go by: those the compositor reported, and none where
/// it did not answer, so that no workspace counts as shown then.
pub open spec fn reported(monitors: Option<Seq<HMonitor>>) -> Seq<HMonitor> {
    match monitors {
        Some(monitors) => monitors,
        None => Seq::empty(),
    }
}

/// Whether one of `monitors` shows the workspace `id`.
pub open spec fn shown_on_some_monitor(monitors: Seq<HMonitor>, id: int) -> bool {
    exists|i: int|
        0 <= i < monitors.len() && (#[trigger] monitors[i]).active_workspace_id == id
}

/// The visibility of `workspace` when the workspace named `active_name`
/// has the focus and `monitors` is what the monitors show: focused when it
/// bears the active name, else visible when a monitor shows it, else
/// hidden.
pub open spec fn visibility_of(
    workspace: HWorkspaceView,
    active_name: Option<Seq<char>>,
    monitors: Seq<HMonitor>,
) -> Visibility {
    if active_name == Some(workspace.name) {
        Visibility::Focused
    } else if shown_on_some_monitor(monitors, workspace.id) {
        Visibility::Visible
    } else {
        Visibility::Hidden
    }
}

/// `workspace` as subscribers see it, with the given visibility.
pub open spec fn with_visibility(workspace: HWorkspaceView, visibility: Visibility) -> WorkspaceView {
    WorkspaceView {
        id: workspace.id,
        name: workspace.name,
        monitor: workspace.monitor,
        visibility,
    }
}

/// `workspace` as subscribers see it, its visibility resolved against the
/// active name and the monitors.
pub open spec fn resolved(
    workspace: HWorkspaceView,
    active_name: Option<Seq<char>>,
    monitors: Seq<HMonitor>,
) -> WorkspaceView {
    with_visibility(workspace, visibility_of(workspace, active_name, monitors))
}

/// The first of `workspaces` that bears `name`, if any does.
pub open spec fn first_named(workspaces: Seq<HWorkspaceView>, name: Seq<char>) -> Option<
    HWorkspaceView,
>
    decreases workspaces.len(),
{
    if workspaces.len() == 0 {
        None
    } else if workspaces[0].name == name {
        Some(workspaces[0])
    } else {
        first_named(workspaces.drop_first(), name)
    }
}

/// The workspace named `name` as subscribers see it, if the compositor
/// knows one.
pub open spec fn workspace_named(
    name: Seq<char>,
    active_name: Option<Seq<char>>,
    workspaces: Seq<HWorkspaceView>,
    monitors: Seq<HMonitor>,
) -> Option<WorkspaceView> {
    match first_named(workspaces, name) {
        Some(workspace) => Some(resolved(workspace, active_name, monitors)),
        None => None,
    }
}

/// All of `workspaces` as subscribers see them, in the compositor's
/// order, each resolved against the active name and the monitors.
pub open spec fn snapshot(
    active_name: Option<Seq<char>>,
    workspaces: Seq<HWorkspaceView>,
    monitors: Seq<HMonitor>,
) -> Seq<WorkspaceView> {
    Seq::new(workspaces.len(), |i: int| resolved(workspaces[i], active_name, monitors))
}

/// The name of a workspace, if there is one.
pub open spec fn name_of(workspace: Option<WorkspaceView>) -> Option<Seq<char>> {
    match workspace {
        Some(workspace) => Some(workspace.name),
        None => None,
    }
}

/// The name of a workspace as plain text.
pub fn get_workspace_name(name: WorkspaceType) -> (text: String)
    ensures
        text@ == name@,
{
    match name {
        WorkspaceType::Regular(name) => name,
        WorkspaceType::Special(name) => name.unwrap_or_default(),
    }
}

fn any_shows(monitors: &Vec<HMonitor>, id: i32) -> (shown: bool)
    ensures
        shown == shown_on_some_monitor(monitors@, id as int),
{
    let mut i: usize = 0;
    while i < monitors.len()
        invariant
            i <= monitors.len(),
            forall|j: int| 0 <= j < i ==> (#[trigger] monitors[j]).active_workspace_id != id,
        decreases monitors.len() - i,
    {
        if monitors[i].active_workspace_id == id {
            return true;
        }
        i += 1;
    }
    false
}

/// Creates a function which determines if a workspace is visible: whether
/// one of `monitors` shows it. Where the compositor did not report its
/// monitors, no workspace is visible.
///
/// The monitors are a snapshot. The function is good for the one event
/// the snapshot was taken for, and must not be kept beyond it.
pub fn create_is_visible(monitors: Option<Vec<HMonitor>>) -> (is_visible: impl Fn(
    &HWorkspace,
) -> bool)
    ensures
        forall|w: &HWorkspace| #[trigger] is_visible.requires((w,)),
        forall|w: &HWorkspace, b: bool| #[trigger]
            is_visible.ensures((w,), b) ==> b == shown_on_some_monitor(
                reported(monitors_view(monitors)),
                w.id as int,
            ),
{
    move |w: &HWorkspace| -> (b: bool)
        ensures
            b == shown_on_some_monitor(reported(monitors_view(monitors)), w.id as int),
        {
            match &monitors {
                Some(monitors) => any_shows(monitors, w.id),
                None => false,
            }
        }
}

impl vstd::std_specs::convert::FromSpecImpl<(Visibility, HWorkspace)> for Workspace {
    open spec fn obeys_from_spec() -> bool {
        true
    }

    open spec fn from_spec(parts: (Visibility, HWorkspace)) -> Workspace {
        Workspace {
            id: parts.1.id as i64,
            name: parts.1.name,
            monitor: parts.1.monitor,
            visibility: parts.0,
        }
    }
}

impl From<(Visibility, HWorkspace)> for Workspace {
    /// The compositor's workspace as subscribers see it, with the given
    /// visibility.
    fn from(parts: (Visibility, HWorkspace)) -> (workspace: Self) {
        let (visibility, workspace) = parts;
        Workspace {
            id: workspace.id as i64,
            name: workspace.name,
            monitor: workspace.monitor,
            visibility,
        }
    }
}

impl Visibility {
    /// Resolves how `workspace` is shown: focused when it bears the active
    /// name; else whatever `is_visible` finds, visible or hidden.
    pub fn resolve<F: Fn(&HWorkspace) -> bool>(
        workspace: &HWorkspace,
        active_name: Option<&String>,
        is_visible: &F,
    ) -> (visibility: Self)
        requires
            is_visible.requires((workspace,)),
        ensures
            active_name.deep_view() == Some(workspace.name@) ==> visibility == Visibility::Focused,
            active_name.deep_view() != Some(workspace.name@) ==> (visibility == Visibility::Visible
                && is_visible.ensures((workspace,), true)) || (visibility == Visibility::Hidden
                && is_visible.ensures((workspace,), false)),
    {
        let is_active = match active_name {
            Some(name) => workspace.name == *name,
            None => false,
        };
        if is_active {
            Visibility::focused()
        } else if is_visible(workspace) {
            Visibility::visible()
        } else {
            Visibility::Hidden
        }
    }
}

/// Gets a workspace by name from what the compositor reports, given the
/// active workspace if known.
///
/// The first workspace that bears the name is taken, and its visibility
/// resolved against the active workspace's name and the monitors.
pub fn get_workspace(
    name: &String,
    active: Option<&Workspace>,
    workspaces: Vec<HWorkspace>,
    monitors: Option<Vec<HMonitor>>,
) -> (found: Option<Workspace>)
    ensures
        found.deep_view() == workspace_named(
            name@,
            name_of(active.deep_view()),
            workspaces.deep_view(),
            reported(monitors_view(monitors)),
        ),
{
    let ghost all = workspaces.deep_view();
    let mut candidates = workspaces;
    let mut i: usize = 0;
    assert(all.skip(0) =~= all);
    while i < candidates.len()
        invariant
            i <= candidates.len(),
            all == workspaces.deep_view(),
            all == candidates.deep_view(),
            first_named(all, name@) == first_named(all.skip(i as int), name@),
        decreases candidates.len() - i,
    {
        assert(all.skip(i as int).drop_first() =~= all.skip(i + 1));
        if candidates[i].name == *name {
            let workspace = candidates.swap_remove(i);
            let active_name = match active {
                Some(active) => Some(&active.name),
                None => None,
            };
            let visibility = Visibility::resolve(
                &workspace,
                active_name,
                &create_is_visible(monitors),
            );
            return Some(Workspace::from((visibility, workspace)));
        }
        i += 1;
    }
    None
}

/// Resolves every workspace the compositor reports, for the snapshot that
/// a new subscriber starts from.
///
/// The workspaces keep the compositor's order. Each is resolved against
/// the name of the active workspace, where one is known, and against the
/// monitors, of which one snapshot serves for all.
pub fn get_workspaces(
    active_name: Option<&String>,
    workspaces: &Vec<HWorkspace>,
    monitors: Option<Vec<HMonitor>>,
) -> (all: Vec<Workspace>)
    ensures
        all.deep_view() == snapshot(active_name.deep_view(), workspaces.deep_view(), reported(monitors_view(monitors))),
{
    let is_visible = create_is_visible(monitors);
    let mut all: Vec<Workspace> = Vec::new();
    let mut i: usize = 0;
    while i < workspaces.len()
        invariant
            i <= workspaces.len(),
            all.len() == i,
            forall|w: &HWorkspace| #[trigger] is_visible.requires((w,)),
            forall|w: &HWorkspace, b: bool| #[trigger]
                is_visible.ensures((w,), b) ==> b == shown_on_some_monitor(
                    reported(monitors_view(monitors)),
                    w.id as int,
                ),
            forall|j: int|
                0 <= j < i ==> (#[trigger] all[j])@ == resolved(
                    workspaces[j]@,
                    active_name.deep_view(),
                    reported(monitors_view(monitors)),
                ),
        decreases workspaces.len() - i,
    {
        let workspace = workspaces[i].clone();
        let visibility = Visibility::resolve(&workspace, active_name, &is_visible);
        all.push(Workspace::from((visibility, workspace)));
        i += 1;
    }
    all
}

/// The primary keyboard: the first that the compositor marks as such.
pub fn main_keyboard(keyboards: &Vec<HKeyboard>) -> (found: Option<&HKeyboard>)
    ensures
        found.deep_view() == first_main(keyboards.deep_view()),
{
    let ghost all = keyboards.deep_view();
    let mut i: usize = 0;
    assert(all.skip(0) =~= all);
    while i < keyboards.len()
        invariant
            i <= keyboards.len(),
            all == keyboards.deep_view(),
            first_main(all) == first_main(all.skip(i as int)),
        decreases keyboards.len() - i,
    {
        assert(all.skip(i as int).drop_first() =~= all.skip(i + 1));
        if keyboards[i].main {
            return Some(&keyboards[i]);
        }
        i += 1;
    }
    None
}

} // verus!
