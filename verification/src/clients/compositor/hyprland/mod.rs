//! A client for the Hyprland compositor.
//!
//! The client listens to the compositor's notifications, keeps track of
//! the active workspace, and republishes what happened as ordered updates
//! to any number of subscribers. Talking to the compositor is left to the
//! caller, who hands in what the compositor said.

pub mod data;
pub mod events;
pub mod laws;

pub use data::{
    create_is_visible, get_workspace, get_workspace_name, get_workspaces, main_keyboard, HClient,
    HKeyboard, HMonitor, HWorkspace, WorkspaceType,
};
pub use events::{
    handle_event, required_query, send_focus_change, EventError, Outcome, Query, RawEvent, Reply,
};

use crate::clients::compositor::{
    KeyboardLayoutUpdate, Workspace, WorkspaceUpdate, WorkspaceUpdateView,
};
use data::{first_main, monitors_view, reported, snapshot, HKeyboardView};
use events::{query_for, step};
use tokio::sync::broadcast::{Receiver, Sender};
use vstd::prelude::*;

verus! {

/// The sending half of a tokio broadcast channel. Nothing is known of what
/// is inside one.
#[verifier::external_type_specification]
#[verifier::external_body]
#[verifier::reject_recursive_types(T)]
pub struct ExSender<T>(Sender<T>);

/// The receiving half of a tokio broadcast channel. Nothing is known of
/// what is inside one.
#[verifier::external_type_specification]
#[verifier::external_body]
#[verifier::reject_recursive_types(T)]
pub struct ExReceiver<T>(Receiver<T>);

/// The channel that a sender of workspace updates sends on. A half
/// belongs to one channel from its making on; the number only tells one
/// channel from another.
pub uninterp spec fn workspace_sender_channel(tx: Sender<WorkspaceUpdate>) -> int;

/// The channel that a receiver of workspace updates listens to.
pub uninterp spec fn workspace_receiver_channel(rx: Receiver<WorkspaceUpdate>) -> int;

/// The channel that a sender of keyboard-layout updates sends on.
pub uninterp spec fn layout_sender_channel(tx: Sender<KeyboardLayoutUpdate>) -> int;

/// The channel that a receiver of keyboard-layout updates listens to.
pub uninterp spec fn layout_receiver_channel(rx: Receiver<KeyboardLayoutUpdate>) -> int;

/// `tokio::sync::broadcast::channel`, for workspace updates: makes a
/// channel that retains the given number of values, and its first
/// receiver, which listens to the channel that the sender sends on. It
/// panics on a capacity of zero or of more than half of `usize::MAX`,
/// which the precondition rules out.
#[verifier::external_body]
fn workspace_channel(capacity: usize) -> (channel: (
    Sender<WorkspaceUpdate>,
    Receiver<WorkspaceUpdate>,
))
    requires
        0 < capacity <= usize::MAX / 2,
    ensures
        workspace_sender_channel(channel.0) == workspace_receiver_channel(channel.1),
{
    tokio::sync::broadcast::channel(capacity)
}

/// `tokio::sync::broadcast::channel`, for keyboard-layout updates: as
/// [`workspace_channel`].
#[verifier::external_body]
fn layout_channel(capacity: usize) -> (channel: (
    Sender<KeyboardLayoutUpdate>,
    Receiver<KeyboardLayoutUpdate>,
))
    requires
        0 < capacity <= usize::MAX / 2,
    ensures
        layout_sender_channel(channel.0) == layout_receiver_channel(channel.1),
{
    tokio::sync::broadcast::channel(capacity)
}

/// `Sender::subscribe`, for workspace updates: makes a new receiver,
/// which listens to the channel that `tx` sends on and will see the
/// values sent from now on. The call panics only on a channel that
/// already counts a quarter of `usize::MAX` receivers.
#[verifier::external_body]
fn subscribe_workspace(tx: &Sender<WorkspaceUpdate>) -> (rx: Receiver<WorkspaceUpdate>)
    ensures
        workspace_receiver_channel(rx) == workspace_sender_channel(*tx),
{
    tx.subscribe()
}

/// `Sender::subscribe`, for keyboard-layout updates: as
/// [`subscribe_workspace`].
#[verifier::external_body]
fn subscribe_layout(tx: &Sender<KeyboardLayoutUpdate>) -> (rx: Receiver<KeyboardLayoutUpdate>)
    ensures
        layout_receiver_channel(rx) == layout_sender_channel(*tx),
{
    tx.subscribe()
}

/// `Sender::send`, for workspace updates, on a channel of which the
/// caller holds a receiver. The call hands `value` to every receiver
/// there is at the moment and returns their number; it fails only on a
/// channel that counts no receiver. A channel counts every receiver from
/// its making until it is dropped, and `held` cannot be dropped while it
/// is borrowed: so the call succeeds, and there is at least one receiver.
#[verifier::external_body]
#[allow(unused_variables)]
fn send_workspace_update(
    tx: &Sender<WorkspaceUpdate>,
    held: &Receiver<WorkspaceUpdate>,
    value: WorkspaceUpdate,
) -> (sent: Result<usize, WorkspaceUpdate>)
    requires
        workspace_sender_channel(*tx) == workspace_receiver_channel(*held),
    ensures
        sent is Ok,
        sent matches Ok(receivers) ==> receivers > 0,
{
    match tx.send(value) {
        Ok(receivers) => Ok(receivers),
        Err(error) => Err(error.0),
    }
}

/// `Sender::send`, for keyboard-layout updates, on a channel of which the
/// caller holds a receiver: as [`send_workspace_update`].
#[verifier::external_body]
#[allow(unused_variables)]
fn send_layout_update(
    tx: &Sender<KeyboardLayoutUpdate>,
    held: &Receiver<KeyboardLayoutUpdate>,
    value: KeyboardLayoutUpdate,
) -> (sent: Result<usize, KeyboardLayoutUpdate>)
    requires
        layout_sender_channel(*tx) == layout_receiver_channel(*held),
    ensures
        sent is Ok,
        sent matches Ok(receivers) ==> receivers > 0,
{
    match tx.send(value) {
        Ok(receivers) => Ok(receivers),
        Err(error) => Err(error.0),
    }
}

/// Sends `updates` down the channel in order. All of them are taken,
/// since `held` is there to take them.
fn send_all(
    tx: &Sender<WorkspaceUpdate>,
    held: &Receiver<WorkspaceUpdate>,
    updates: Vec<WorkspaceUpdate>,
) -> (delivered: bool)
    requires
        workspace_sender_channel(*tx) == workspace_receiver_channel(*held),
    ensures
        delivered,
{
    for update in pending: updates
        invariant
            workspace_sender_channel(*tx) == workspace_receiver_channel(*held),
    {
        if send_workspace_update(tx, held, update).is_err() {
            return false;
        }
    }
    true
}

/// What the client asks of the compositor.
#[derive(Debug, PartialEq, Eq)]
pub enum Command {
    /// Give the focus to the workspace with this identifier.
    FocusWorkspace(i32),
    /// Switch the named keyboard to its next layout.
    NextKeyboardLayout { device: String },
}

/// The mathematical value of a [`Command`].
pub enum CommandView {
    FocusWorkspace(int),
    NextKeyboardLayout { device: Seq<char> },
}

impl View for Command {
    type V = CommandView;

    open spec fn view(&self) -> CommandView {
        match self {
            Command::FocusWorkspace(id) => CommandView::FocusWorkspace(*id as int),
            Command::NextKeyboardLayout { device } => CommandView::NextKeyboardLayout {
                device: device@,
            },
        }
    }
}

impl DeepView for Command {
    type V = CommandView;

    open spec fn deep_view(&self) -> CommandView {
        self@
    }
}

/// Why no command came about.
#[derive(Debug, Clone, Copy, PartialEq, Eq, Structural)]
pub enum CommandError {
    /// The compositor did not say which keyboards there are.
    DevicesUnavailable,
    /// None of the keyboards is the primary one.
    NoMainKeyboard,
}

/// The command that switches the primary keyboard among `keyboards` to
/// its next layout; `keyboards` is absent where the compositor did not
/// answer.
pub open spec fn next_layout_command(keyboards: Option<Seq<HKeyboardView>>) -> Result<
    CommandView,
    CommandError,
> {
    match keyboards {
        Some(keyboards) => match first_main(keyboards) {
            Some(keyboard) => Ok(CommandView::NextKeyboardLayout { device: keyboard.name }),
            None => Err(CommandError::NoMainKeyboard),
        },
        None => Err(CommandError::DevicesUnavailable),
    }
}

/// The layout that is active on the primary keyboard, if there is such a
/// keyboard.
pub open spec fn active_layout(keyboards: Seq<HKeyboardView>) -> Option<Seq<char>> {
    match first_main(keyboards) {
        Some(keyboard) => Some(keyboard.active_keymap),
        None => None,
    }
}

/// The first update of a new keyboard-layout subscriber: the layout that
/// is active on the primary keyboard, if there is such a keyboard.
pub fn initial_layout(keyboards: &Vec<HKeyboard>) -> (update: Option<KeyboardLayoutUpdate>)
    ensures
        update.deep_view() == active_layout(keyboards.deep_view()),
{
    match main_keyboard(keyboards) {
        Some(keyboard) => Some(KeyboardLayoutUpdate(keyboard.active_keymap.clone())),
        None => None,
    }
}

/// What became of one notification.
#[derive(Debug, Clone, Copy, PartialEq, Eq, Structural)]
pub struct Report {
    /// Why the notification was dropped, if it was.
    pub error: Option<EventError>,
    /// Whether the channels took every update that was to be sent.
    pub delivered: bool,
}

/// The compositor client: two broadcast channels, one for workspace
/// updates and one for keyboard-layout updates.
///
/// The client keeps a receiver of each channel for itself, so that a
/// channel is never without one while the client lives, and publishing
/// does not fail for want of subscribers.
#[derive(Debug)]
pub struct Client {
    workspace_tx: Sender<WorkspaceUpdate>,
    _workspace_rx: Receiver<WorkspaceUpdate>,
    keyboard_layout_tx: Sender<KeyboardLayoutUpdate>,
    _keyboard_layout_rx: Receiver<KeyboardLayoutUpdate>,
}

impl Client {
    /// Whether the client holds, for each of its two senders, a receiver
    /// that listens to the channel the sender sends on. This holds of
    /// every client.
    #[verifier::type_invariant]
    pub closed spec fn holds_receiver(&self) -> bool {
        &&& workspace_sender_channel(self.workspace_tx) == workspace_receiver_channel(
            self._workspace_rx,
        )
        &&& layout_sender_channel(self.keyboard_layout_tx) == layout_receiver_channel(
            self._keyboard_layout_rx,
        )
    }

    /// Whether `rx` listens to the channel on which this client publishes
    /// its workspace updates.
    pub closed spec fn hears_workspaces(&self, rx: Receiver<WorkspaceUpdate>) -> bool {
        workspace_receiver_channel(rx) == workspace_sender_channel(self.workspace_tx)
    }

    /// Whether `rx` listens to the channel on which this client publishes
    /// its keyboard-layout updates.
    pub closed spec fn hears_layouts(&self, rx: Receiver<KeyboardLayoutUpdate>) -> bool {
        layout_receiver_channel(rx) == layout_sender_channel(self.keyboard_layout_tx)
    }

    /// A client with fresh channels, each retaining 16 updates for slow
    /// subscribers, and each with a receiver that the client holds.
    pub fn new() -> (client: Self)
        ensures
            client.holds_receiver(),
    {
        let (workspace_tx, workspace_rx) = workspace_channel(16);
        let (keyboard_layout_tx, keyboard_layout_rx) = layout_channel(16);
        Client {
            workspace_tx,
            _workspace_rx: workspace_rx,
            keyboard_layout_tx,
            _keyboard_layout_rx: keyboard_layout_rx,
        }
    }

    /// Handles one notification from the compositor and publishes what
    /// comes of it.
    ///
    /// `active` is the cached active workspace, which the caller holds
    /// locked for the whole call, so that notifications are handled one
    /// at a time and in the order in which they came. `query` asks the
    /// compositor; it is called once, with what the notification needs.
    /// The cache and the reported error are those of [`step`] on the
    /// answer. The workspace updates are sent in order, then the
    /// keyboard-layout update. All of them are taken, with or without
    /// subscribers, since the client holds a receiver of each channel.
    pub fn on_event<Q: FnOnce(Query) -> Reply>(
        &self,
        active: &mut Option<Workspace>,
        event: RawEvent,
        query: Q,
    ) -> (report: Report)
        requires
            query.requires((query_for(event@),)),
        ensures
            report.delivered,
            exists|reply: Reply|
                query.ensures((query_for(event@),), reply) && final(active).deep_view() == (
                #[trigger] step(old(active).deep_view(), event@, reply@)).active && report.error
                    == step(old(active).deep_view(), event@, reply@).outcome.error,
    {
        proof {
            use_type_invariant(self);
        }
        let reply = query(required_query(&event));
        let outcome = handle_event(active, event, reply);
        let error = outcome.error;
        let mut delivered = send_all(&self.workspace_tx, &self._workspace_rx, outcome.updates);
        if delivered {
            if let Some(layout) = outcome.layout {
                delivered = send_layout_update(
                    &self.keyboard_layout_tx,
                    &self._keyboard_layout_rx,
                    layout,
                ).is_ok();
            }
        }
        Report { error, delivered }
    }

    /// The command that gives the focus to the workspace `id`. The
    /// compositor counts workspaces in 32 bits, so `id` has to fit.
    pub fn focus(&self, id: i64) -> (command: Command)
        requires
            i32::MIN <= id <= i32::MAX,
        ensures
            command@ == CommandView::FocusWorkspace(id as int),
    {
        Command::FocusWorkspace(id as i32)
    }

    /// The command that switches the primary keyboard to its next layout.
    /// `keyboards` is what the compositor reports, or nothing where it
    /// did not answer. There is no command then, nor where none of the
    /// keyboards is the primary one.
    pub fn set_next_active(&self, keyboards: Option<&Vec<HKeyboard>>) -> (command: Result<
        Command,
        CommandError,
    >)
        ensures
            match command {
                Ok(command) => Ok(command@),
                Err(error) => Err(error),
            } == next_layout_command(keyboards.deep_view()),
    {
        match keyboards {
            Some(keyboards) => match main_keyboard(keyboards) {
                Some(keyboard) => Ok(
                    Command::NextKeyboardLayout { device: keyboard.name.clone() },
                ),
                None => Err(CommandError::NoMainKeyboard),
            },
            None => Err(CommandError::DevicesUnavailable),
        }
    }

    /// Subscribes to the workspace updates.
    ///
    /// The subscription is made first. Then `query` asks the compositor
    /// for the name of the active workspace and for the monitors, where
    /// it can tell, and for the live workspaces; and the snapshot that
    /// [`get_workspaces`] makes of them is sent to all subscribers as a
    /// `WorkspaceUpdate::Init`. The new subscriber so receives that
    /// snapshot and every update sent after it. The receiver, which
    /// listens to the client's channel, is returned, and beside it the
    /// update that was sent.
    pub fn subscribe<Q: FnOnce() -> (Option<String>, Vec<HWorkspace>, Option<Vec<HMonitor>>)>(
        &self,
        query: Q,
    ) -> (subscription: (Receiver<WorkspaceUpdate>, WorkspaceUpdate))
        requires
            query.requires(()),
        ensures
            self.hears_workspaces(subscription.0),
            exists|answer: (Option<String>, Vec<HWorkspace>, Option<Vec<HMonitor>>)|
                query.ensures((), answer) && subscription.1@ == WorkspaceUpdateView::Init(
                    #[trigger] snapshot(
                        answer.0.deep_view(),
                        answer.1.deep_view(),
                        reported(monitors_view(answer.2)),
                    ),
                ),
    {
        proof {
            use_type_invariant(self);
        }
        let rx = subscribe_workspace(&self.workspace_tx);
        let answer = query();
        let all = get_workspaces(answer.0.as_ref(), &answer.1, answer.2);
        assert(all.deep_view() == snapshot(
            answer.0.deep_view(),
            answer.1.deep_view(),
            reported(monitors_view(answer.2)),
        ));
        let update = WorkspaceUpdate::Init(all);
        let _ = send_workspace_update(&self.workspace_tx, &self._workspace_rx, update.clone());
        (rx, update)
    }

    /// Subscribes to the keyboard-layout updates.
    ///
    /// The subscription is made first. Then `query` asks the compositor
    /// for the keyboards, and the update that [`initial_layout`] makes of
    /// them, if any, is sent to all subscribers. The new subscriber so
    /// receives the layout that is active on the primary keyboard, if
    /// there is such a keyboard, and every update sent after it. The
    /// receiver, which listens to the client's channel, is returned, and
    /// beside it the update that was sent, if any.
    pub fn subscribe_keyboard_layout<Q: FnOnce() -> Vec<HKeyboard>>(&self, query: Q) -> (subscription: (
        Receiver<KeyboardLayoutUpdate>,
        Option<KeyboardLayoutUpdate>,
    ))
        requires
            query.requires(()),
        ensures
            self.hears_layouts(subscription.0),
            exists|keyboards: Vec<HKeyboard>|
                query.ensures((), keyboards) && subscription.1.deep_view() == #[trigger] active_layout(
                    keyboards.deep_view(),
                ),
    {
        proof {
            use_type_invariant(self);
        }
        let rx = subscribe_layout(&self.keyboard_layout_tx);
        let keyboards = query();
        match initial_layout(&keyboards) {
            Some(update) => {
                let _ = send_layout_update(
                    &self.keyboard_layout_tx,
                    &self._keyboard_layout_rx,
                    update.clone(),
                );
                (rx, Some(update))
            },
            None => (rx, None),
        }
    }
}

} // verus!
