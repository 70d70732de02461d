//! The event normalizer: what each notification from the compositor,
//! together with a fresh snapshot of the compositor's state, does to the
//! cached active workspace, and which updates it sends to subscribers.
//!
//! Notifications are handled one at a time, each against the cache as the
//! one before left it. A handler never fails: where a notification cannot
//! be acted on it is dropped, and the outcome says why.

use super::data::{
    get_workspace, get_workspace_name, monitors_view, name_of, reported, workspace_named, HClient,
    HClientView, HMonitor, HWorkspace, HWorkspaceView, WorkspaceType,
};
use crate::clients::compositor::{
    KeyboardLayoutUpdate, Visibility, Workspace, WorkspaceUpdate, WorkspaceUpdateView,
    WorkspaceView,
};
use vstd::prelude::*;

verus! {

/// A notification from the compositor.
#[derive(Debug, PartialEq, Eq)]
pub enum RawEvent {
    /// A workspace came into being.
    Added(WorkspaceType),
    /// The active workspace switched to the named one.
    Changed(WorkspaceType),
    /// The focus went to another monitor, and with it to the workspace that
    /// monitor shows, where the compositor names one.
    ActiveMonitorChanged { monitor_name: String, workspace_name: Option<WorkspaceType> },
    /// A workspace went to another monitor.
    Moved(WorkspaceType),
    /// A workspace got a new name.
    Renamed { id: i32, name: String },
    /// A workspace is gone.
    Deleted { id: i32 },
    /// The client window at this address asks for attention.
    UrgentStateChanged { address: String },
    /// Another keyboard layout became active.
    LayoutChanged { layout_name: String },
}

/// The mathematical value of a [`RawEvent`]. A workspace stands in it by
/// the name it goes by.
pub enum RawEventView {
    Added(Seq<char>),
    Changed(Seq<char>),
    ActiveMonitorChanged { monitor_name: Seq<char>, workspace_name: Option<Seq<char>> },
    Moved(Seq<char>),
    Renamed { id: int, name: Seq<char> },
    Deleted { id: int },
    UrgentStateChanged { address: Seq<char> },
    LayoutChanged { layout_name: Seq<char> },
}

impl View for RawEvent {
    type V = RawEventView;

    open spec fn view(&self) -> RawEventView {
        match self {
            RawEvent::Added(name) => RawEventView::Added(name@),
            RawEvent::Changed(name) => RawEventView::Changed(name@),
            RawEvent::ActiveMonitorChanged {
                monitor_name,
                workspace_name,
            } => RawEventView::ActiveMonitorChanged {
                monitor_name: monitor_name@,
                workspace_name: workspace_name.deep_view(),
            },
            RawEvent::Moved(name) => RawEventView::Moved(name@),
            RawEvent::Renamed { id, name } => RawEventView::Renamed { id: *id as int, name: name@ },
            RawEvent::Deleted { id } => RawEventView::Deleted { id: *id as int },
            RawEvent::UrgentStateChanged { address } => RawEventView::UrgentStateChanged {
                address: address@,
            },
            RawEvent::LayoutChanged { layout_name } => RawEventView::LayoutChanged {
                layout_name: layout_name@,
            },
        }
    }
}

/// What a handler has to ask the compositor before it can act.
#[derive(Debug, Clone, Copy, PartialEq, Eq, Structural)]
pub enum Query {
    /// Nothing: the notification carries all there is to know.
    Nothing,
    /// The live workspaces and what the monitors show.
    Workspaces,
    /// The live client windows.
    Clients,
}

/// The compositor's answer to a [`Query`].
#[derive(Debug, PartialEq, Eq)]
pub enum Reply {
    /// Nothing was asked.
    Nothing,
    /// The live workspaces, in the compositor's order, and the monitors,
    /// where the compositor reported them.
    Workspaces { workspaces: Vec<HWorkspace>, monitors: Option<Vec<HMonitor>> },
    /// The live client windows, in the compositor's order.
    Clients(Vec<HClient>),
    /// The compositor did not answer.
    Failed,
}

/// The mathematical value of a [`Reply`].
pub enum ReplyView {
    Nothing,
    Workspaces { workspaces: Seq<HWorkspaceView>, monitors: Option<Seq<HMonitor>> },
    Clients(Seq<HClientView>),
    Failed,
}

impl View for Reply {
    type V = ReplyView;

    open spec fn view(&self) -> ReplyView {
        match self {
            Reply::Nothing => ReplyView::Nothing,
            Reply::Workspaces { workspaces, monitors } => ReplyView::Workspaces {
                workspaces: workspaces.deep_view(),
                monitors: monitors_view(*monitors),
            },
            Reply::Clients(clients) => ReplyView::Clients(clients.deep_view()),
            Reply::Failed => ReplyView::Failed,
        }
    }
}

/// Why a notification was dropped.
#[derive(Debug, Clone, Copy, PartialEq, Eq, Structural)]
pub enum EventError {
    /// The focus went to a monitor for which the compositor named no
    /// workspace.
    NoWorkspaceOnMonitor,
    /// The compositor knows no workspace of the name in question, or, after
    /// a change of monitor, the workspace it names had the focus already.
    WorkspaceNotFound,
    /// No client window has the address in question.
    ClientNotFound,
    /// The compositor did not give the snapshot the handler asked for.
    QueryFailed,
}

/// What handling one notification gave: the updates for the workspace
/// subscribers, in the order in which they are to be sent, the update for
/// the keyboard-layout subscribers, and the reason if the notification was
/// dropped.
#[derive(Debug, PartialEq, Eq)]
pub struct Outcome {
    pub updates: Vec<WorkspaceUpdate>,
    pub layout: Option<KeyboardLayoutUpdate>,
    pub error: Option<EventError>,
}

/// The mathematical value of an [`Outcome`].
pub struct OutcomeView {
    pub updates: Seq<WorkspaceUpdateView>,
    pub layout: Option<Seq<char>>,
    pub error: Option<EventError>,
}

impl View for Outcome {
    type V = OutcomeView;

    open spec fn view(&self) -> OutcomeView {
        OutcomeView {
            updates: self.updates.deep_view(),
            layout: self.layout.deep_view(),
            error: self.error,
        }
    }
}

/// The cache and the outcome after one notification.
pub struct Step {
    pub active: Option<WorkspaceView>,
    pub outcome: OutcomeView,
}

/// The outcome of a notification that was acted on by sending `updates`
/// to the workspace subscribers.
pub open spec fn sent(updates: Seq<WorkspaceUpdateView>) -> OutcomeView {
    OutcomeView { updates, layout: None, error: None }
}

/// The outcome of a notification that was dropped for the given reason:
/// nothing is sent.
pub open spec fn dropped(error: EventError) -> OutcomeView {
    OutcomeView { updates: Seq::empty(), layout: None, error: Some(error) }
}

/// The two updates that a change of focus consists of: the focus goes from
/// the cached workspace to `workspace`, and then `workspace` stops asking
/// for attention.
pub open spec fn focus_change(
    active: Option<WorkspaceView>,
    workspace: WorkspaceView,
) -> Seq<WorkspaceUpdateView> {
    seq![
        WorkspaceUpdateView::Focus { old: active, new: workspace },
        WorkspaceUpdateView::Urgent { id: workspace.id, urgent: false },
    ]
}

/// `workspace` once it has the focus: the same workspace, marked focused.
pub open spec fn in_focus(workspace: WorkspaceView) -> WorkspaceView {
    WorkspaceView { visibility: Visibility::Focused, ..workspace }
}

/// The step that changes the focus to `workspace`, after `before` was
/// sent: the focus change to the workspace, marked focused, follows, and
/// the workspace so marked is cached.
pub open spec fn focused(
    active: Option<WorkspaceView>,
    before: Seq<WorkspaceUpdateView>,
    workspace: WorkspaceView,
) -> Step {
    Step {
        active: Some(in_focus(workspace)),
        outcome: sent(before + focus_change(active, in_focus(workspace))),
    }
}

/// A workspace was added: it is announced if the compositor knows it.
pub open spec fn step_added(
    active: Option<WorkspaceView>,
    name: Seq<char>,
    workspaces: Seq<HWorkspaceView>,
    monitors: Seq<HMonitor>,
) -> Step {
    match workspace_named(name, name_of(active), workspaces, monitors) {
        Some(workspace) => Step {
            active,
            outcome: sent(seq![WorkspaceUpdateView::Add(workspace)]),
        },
        None => Step { active, outcome: dropped(EventError::WorkspaceNotFound) },
    }
}

/// The active workspace changed: the focus changes, unless the workspace
/// resolves as focused already, in which case nothing is sent.
pub open spec fn step_changed(
    active: Option<WorkspaceView>,
    name: Seq<char>,
    workspaces: Seq<HWorkspaceView>,
    monitors: Seq<HMonitor>,
) -> Step {
    match workspace_named(name, name_of(active), workspaces, monitors) {
        Some(workspace) => if workspace.visibility == Visibility::Focused {
            Step { active, outcome: sent(Seq::empty()) }
        } else {
            focused(active, Seq::empty(), workspace)
        },
        None => Step { active, outcome: dropped(EventError::WorkspaceNotFound) },
    }
}

/// The active monitor changed: the focus changes to the workspace the
/// compositor names. With no name, with a name the compositor does not
/// know, or with a workspace that resolves as focused already, the
/// notification is dropped.
pub open spec fn step_active_monitor_changed(
    active: Option<WorkspaceView>,
    workspace_name: Option<Seq<char>>,
    reply: ReplyView,
) -> Step {
    match (workspace_name, reply) {
        (None, _) => Step { active, outcome: dropped(EventError::NoWorkspaceOnMonitor) },
        (Some(name), ReplyView::Workspaces { workspaces, monitors }) => match workspace_named(
            name,
            name_of(active),
            workspaces,
            reported(monitors),
        ) {
            Some(workspace) => if workspace.visibility == Visibility::Focused {
                Step { active, outcome: dropped(EventError::WorkspaceNotFound) }
            } else {
                focused(active, Seq::empty(), workspace)
            },
            None => Step { active, outcome: dropped(EventError::WorkspaceNotFound) },
        },
        (Some(_), _) => Step { active, outcome: dropped(EventError::QueryFailed) },
    }
}

/// A workspace moved: the move is announced, and then the focus changes
/// unless the workspace resolves as focused already.
pub open spec fn step_moved(
    active: Option<WorkspaceView>,
    name: Seq<char>,
    workspaces: Seq<HWorkspaceView>,
    monitors: Seq<HMonitor>,
) -> Step {
    match workspace_named(name, name_of(active), workspaces, monitors) {
        Some(workspace) => if workspace.visibility == Visibility::Focused {
            Step { active, outcome: sent(seq![WorkspaceUpdateView::Move(workspace)]) }
        } else {
            focused(active, seq![WorkspaceUpdateView::Move(workspace)], workspace)
        },
        None => Step { active, outcome: dropped(EventError::WorkspaceNotFound) },
    }
}

/// The first of `clients` at `address`, if there is one.
pub open spec fn first_at(clients: Seq<HClientView>, address: Seq<char>) -> Option<HClientView>
    decreases clients.len(),
{
    if clients.len() == 0 {
        None
    } else if clients[0].address == address {
        Some(clients[0])
    } else {
        first_at(clients.drop_first(), address)
    }
}

/// A client asks for attention: its workspace becomes urgent, if the
/// client can be found. The cache plays no part.
pub open spec fn outcome_urgent(address: Seq<char>, reply: ReplyView) -> OutcomeView {
    match reply {
        ReplyView::Clients(clients) => match first_at(clients, address) {
            Some(client) => sent(
                seq![WorkspaceUpdateView::Urgent { id: client.workspace_id, urgent: true }],
            ),
            None => dropped(EventError::ClientNotFound),
        },
        _ => dropped(EventError::QueryFailed),
    }
}

/// What a notification asks of the compositor: the workspaces and
/// monitors where a workspace has to be resolved by name, the clients
/// where one has to be found by address, and nothing otherwise.
pub open spec fn query_for(event: RawEventView) -> Query {
    match event {
        RawEventView::Added(_) => Query::Workspaces,
        RawEventView::Changed(_) => Query::Workspaces,
        RawEventView::ActiveMonitorChanged { monitor_name, workspace_name } => if workspace_name
            is Some {
            Query::Workspaces
        } else {
            Query::Nothing
        },
        RawEventView::Moved(_) => Query::Workspaces,
        RawEventView::Renamed { .. } => Query::Nothing,
        RawEventView::Deleted { .. } => Query::Nothing,
        RawEventView::UrgentStateChanged { .. } => Query::Clients,
        RawEventView::LayoutChanged { .. } => Query::Nothing,
    }
}

/// The cache and the outcome after the notification `event`, handled with
/// the cache at `active` and with `reply` as the compositor's answer.
///
/// A handler that needs a snapshot and is given another kind of reply
/// drops the notification. Where the compositor reported the workspaces
/// but not its monitors, the handler goes by no monitors.
pub open spec fn step(active: Option<WorkspaceView>, event: RawEventView, reply: ReplyView) -> Step {
    match (event, reply) {
        (RawEventView::Added(name), ReplyView::Workspaces { workspaces, monitors }) => step_added(
            active,
            name,
            workspaces,
            reported(monitors),
        ),
        (
            RawEventView::Changed(name),
            ReplyView::Workspaces { workspaces, monitors },
        ) => step_changed(active, name, workspaces, reported(monitors)),
        (RawEventView::Moved(name), ReplyView::Workspaces { workspaces, monitors }) => step_moved(
            active,
            name,
            workspaces,
            reported(monitors),
        ),
        (RawEventView::Added(_), _) | (RawEventView::Changed(_), _) | (
            RawEventView::Moved(_),
            _,
        ) => Step { active, outcome: dropped(EventError::QueryFailed) },
        (
            RawEventView::ActiveMonitorChanged { monitor_name, workspace_name },
            _,
        ) => step_active_monitor_changed(active, workspace_name, reply),
        (RawEventView::Renamed { id, name }, _) => Step {
            active,
            outcome: sent(seq![WorkspaceUpdateView::Rename { id, name }]),
        },
        (RawEventView::Deleted { id }, _) => Step {
            active,
            outcome: sent(seq![WorkspaceUpdateView::Remove(id)]),
        },
        (RawEventView::UrgentStateChanged { address }, _) => Step {
            active,
            outcome: outcome_urgent(address, reply),
        },
        (RawEventView::LayoutChanged { layout_name }, _) => Step {
            active,
            outcome: OutcomeView { updates: Seq::empty(), layout: Some(layout_name), error: None },
        },
    }
}

impl Outcome {
    /// The outcome of a notification that was acted on by sending
    /// `updates` to the workspace subscribers.
    pub fn sent(updates: Vec<WorkspaceUpdate>) -> (outcome: Self)
        ensures
            outcome@ == sent(updates.deep_view()),
    {
        Outcome { updates, layout: None, error: None }
    }

    /// The outcome of a notification that was dropped.
    pub fn dropped(error: EventError) -> (outcome: Self)
        ensures
            outcome@ == dropped(error),
    {
        let outcome = Outcome { updates: Vec::new(), layout: None, error: Some(error) };
        assert(outcome.updates.deep_view() =~= Seq::empty());
        outcome
    }
}

/// What `event` asks of the compositor before it can be handled.
pub fn required_query(event: &RawEvent) -> (query: Query)
    ensures
        query == query_for(event@),
{
    match event {
        RawEvent::Added(_) => Query::Workspaces,
        RawEvent::Changed(_) => Query::Workspaces,
        RawEvent::ActiveMonitorChanged { monitor_name: _, workspace_name } => {
            if workspace_name.is_some() {
                Query::Workspaces
            } else {
                Query::Nothing
            }
        },
        RawEvent::Moved(_) => Query::Workspaces,
        RawEvent::Renamed { .. } => Query::Nothing,
        RawEvent::Deleted { .. } => Query::Nothing,
        RawEvent::UrgentStateChanged { .. } => Query::Clients,
        RawEvent::LayoutChanged { .. } => Query::Nothing,
    }
}

/// Sends a `WorkspaceUpdate::Focus` event and updates the active workspace
/// cache.
///
/// The focus goes from the cached workspace, which is taken out of the
/// cache, to `workspace`. Entering focus clears urgency, so a
/// `WorkspaceUpdate::Urgent` event that says so follows at once. Both are
/// appended to `updates`, in this order, and `workspace` becomes the
/// cached active workspace.
pub fn send_focus_change(
    prev_workspace: &mut Option<Workspace>,
    workspace: Workspace,
    updates: &mut Vec<WorkspaceUpdate>,
)
    ensures
        final(updates).deep_view() == old(updates).deep_view() + focus_change(
            old(prev_workspace).deep_view(),
            workspace@,
        ),
        final(prev_workspace).deep_view() == Some(workspace@),
{
    let previous = prev_workspace.take();
    updates.push(WorkspaceUpdate::Focus { old: previous, new: workspace.clone() });
    updates.push(WorkspaceUpdate::Urgent { id: workspace.id, urgent: false });
    *prev_workspace = Some(workspace);
}

/// Marks `workspace` as the one that has the focus.
fn take_focus(workspace: Workspace) -> (target: Workspace)
    ensures
        target@ == in_focus(workspace@),
{
    Workspace {
        id: workspace.id,
        name: workspace.name,
        monitor: workspace.monitor,
        visibility: Visibility::focused(),
    }
}

/// Handles the notification that a workspace was added.
pub fn workspace_added(
    active: &Option<Workspace>,
    name: WorkspaceType,
    workspaces: Vec<HWorkspace>,
    monitors: Option<Vec<HMonitor>>,
) -> (outcome: Outcome)
    ensures
        outcome@ == step_added(
            active.deep_view(),
            name@,
            workspaces.deep_view(),
            reported(monitors_view(monitors)),
        ).outcome,
{
    let workspace_name = get_workspace_name(name);
    match get_workspace(&workspace_name, active.as_ref(), workspaces, monitors) {
        Some(workspace) => {
            let mut updates = Vec::new();
            updates.push(WorkspaceUpdate::Add(workspace));
            assert(updates.deep_view() =~= seq![WorkspaceUpdateView::Add(workspace@)]);
            Outcome::sent(updates)
        },
        None => Outcome::dropped(EventError::WorkspaceNotFound),
    }
}

/// Handles the notification that the active workspace changed.
pub fn workspace_changed(
    active: &mut Option<Workspace>,
    name: WorkspaceType,
    workspaces: Vec<HWorkspace>,
    monitors: Option<Vec<HMonitor>>,
) -> (outcome: Outcome)
    ensures
        outcome@ == step_changed(
            old(active).deep_view(),
            name@,
            workspaces.deep_view(),
            reported(monitors_view(monitors)),
        ).outcome,
        final(active).deep_view() == step_changed(
            old(active).deep_view(),
            name@,
            workspaces.deep_view(),
            reported(monitors_view(monitors)),
        ).active,
{
    let workspace_name = get_workspace_name(name);
    match get_workspace(&workspace_name, active.as_ref(), workspaces, monitors) {
        Some(workspace) => {
            let mut updates = Vec::new();
            assert(updates.deep_view() =~= Seq::empty());
            // a workspace that has the focus already was reported twice
            if !workspace.visibility.is_focused() {
                send_focus_change(active, take_focus(workspace), &mut updates);
            }
            Outcome::sent(updates)
        },
        None => Outcome::dropped(EventError::WorkspaceNotFound),
    }
}

/// Handles the notification that the active monitor changed.
pub fn active_monitor_changed(
    active: &mut Option<Workspace>,
    workspace_name: Option<WorkspaceType>,
    reply: Reply,
) -> (outcome: Outcome)
    ensures
        outcome@ == step_active_monitor_changed(
            old(active).deep_view(),
            workspace_name.deep_view(),
            reply@,
        ).outcome,
        final(active).deep_view() == step_active_monitor_changed(
            old(active).deep_view(),
            workspace_name.deep_view(),
            reply@,
        ).active,
{
    let workspace_type = match workspace_name {
        Some(name) => name,
        None => {
            return Outcome::dropped(EventError::NoWorkspaceOnMonitor);
        },
    };
    let (workspaces, monitors) = match reply {
        Reply::Workspaces { workspaces, monitors } => (workspaces, monitors),
        _ => {
            return Outcome::dropped(EventError::QueryFailed);
        },
    };
    let workspace_name = get_workspace_name(workspace_type);
    match get_workspace(&workspace_name, active.as_ref(), workspaces, monitors) {
        Some(workspace) => {
            if workspace.visibility.is_focused() {
                Outcome::dropped(EventError::WorkspaceNotFound)
            } else {
                let mut updates = Vec::new();
                send_focus_change(active, take_focus(workspace), &mut updates);
                Outcome::sent(updates)
            }
        },
        None => Outcome::dropped(EventError::WorkspaceNotFound),
    }
}

/// Handles the notification that a workspace moved to another monitor.
pub fn workspace_moved(
    active: &mut Option<Workspace>,
    name: WorkspaceType,
    workspaces: Vec<HWorkspace>,
    monitors: Option<Vec<HMonitor>>,
) -> (outcome: Outcome)
    ensures
        outcome@ == step_moved(
            old(active).deep_view(),
            name@,
            workspaces.deep_view(),
            reported(monitors_view(monitors)),
        ).outcome,
        final(active).deep_view() == step_moved(
            old(active).deep_view(),
            name@,
            workspaces.deep_view(),
            reported(monitors_view(monitors)),
        ).active,
{
    let workspace_name = get_workspace_name(name);
    match get_workspace(&workspace_name, active.as_ref(), workspaces, monitors) {
        Some(workspace) => {
            let mut updates = Vec::new();
            updates.push(WorkspaceUpdate::Move(workspace.clone()));
            assert(updates.deep_view() =~= seq![WorkspaceUpdateView::Move(workspace@)]);
            if !workspace.visibility.is_focused() {
                send_focus_change(active, take_focus(workspace), &mut updates);
            }
            Outcome::sent(updates)
        },
        None => Outcome::dropped(EventError::WorkspaceNotFound),
    }
}

/// Handles the notification that a client window asks for attention.
pub fn urgent_state_changed(address: &String, reply: Reply) -> (outcome: Outcome)
    ensures
        outcome@ == outcome_urgent(address@, reply@),
{
    let clients = match reply {
        Reply::Clients(clients) => clients,
        _ => {
            return Outcome::dropped(EventError::QueryFailed);
        },
    };
    let ghost all = clients.deep_view();
    let mut i: usize = 0;
    assert(all.skip(0) =~= all);
    while i < clients.len()
        invariant
            i <= clients.len(),
            all == clients.deep_view(),
            reply@ == ReplyView::Clients(all),
            first_at(all, address@) == first_at(all.skip(i as int), address@),
        decreases clients.len() - i,
    {
        assert(all.skip(i as int).drop_first() =~= all.skip(i + 1));
        if clients[i].address == *address {
            let mut updates = Vec::new();
            updates.push(WorkspaceUpdate::Urgent { id: clients[i].workspace_id as i64, urgent: true });
            assert(updates.deep_view() =~= seq![
                WorkspaceUpdateView::Urgent { id: clients[i as int]@.workspace_id, urgent: true },
            ]);
            return Outcome::sent(updates);
        }
        i += 1;
    }
    Outcome::dropped(EventError::ClientNotFound)
}

/// Handles one notification from the compositor: brings the cached active
/// workspace up to date and says what is to be sent to the subscribers.
///
/// `reply` is the compositor's answer to what [`required_query`] asks for
/// the event, taken for this event alone.
pub fn handle_event(active: &mut Option<Workspace>, event: RawEvent, reply: Reply) -> (outcome:
    Outcome)
    ensures
        outcome@ == step(old(active).deep_view(), event@, reply@).outcome,
        final(active).deep_view() == step(old(active).deep_view(), event@, reply@).active,
{
    match event {
        RawEvent::Added(name) => match reply {
            Reply::Workspaces { workspaces, monitors } => workspace_added(
                active,
                name,
                workspaces,
                monitors,
            ),
            _ => Outcome::dropped(EventError::QueryFailed),
        },
        RawEvent::Changed(name) => match reply {
            Reply::Workspaces { workspaces, monitors } => workspace_changed(
                active,
                name,
                workspaces,
                monitors,
            ),
            _ => Outcome::dropped(EventError::QueryFailed),
        },
        RawEvent::ActiveMonitorChanged { monitor_name: _, workspace_name } => {
            active_monitor_changed(active, workspace_name, reply)
        },
        RawEvent::Moved(name) => match reply {
            Reply::Workspaces { workspaces, monitors } => workspace_moved(
                active,
                name,
                workspaces,
                monitors,
            ),
            _ => Outcome::dropped(EventError::QueryFailed),
        },
        RawEvent::Renamed { id, name } => {
            let mut updates = Vec::new();
            updates.push(WorkspaceUpdate::Rename { id: id as i64, name });
            assert(updates.deep_view() =~= seq![
                WorkspaceUpdateView::Rename { id: id as int, name: name@ },
            ]);
            Outcome::sent(updates)
        },
        RawEvent::Deleted { id } => {
            let mut updates = Vec::new();
            updates.push(WorkspaceUpdate::Remove(id as i64));
            assert(updates.deep_view() =~= seq![WorkspaceUpdateView::Remove(id as int)]);
            Outcome::sent(updates)
        },
        RawEvent::UrgentStateChanged { address } => urgent_state_changed(&address, reply),
        RawEvent::LayoutChanged { layout_name } => {
            let outcome = Outcome {
                updates: Vec::new(),
                layout: Some(KeyboardLayoutUpdate(layout_name)),
                error: None,
            };
            assert(outcome.updates.deep_view() =~= Seq::empty());
            outcome
        },
    }
}

} // verus!
