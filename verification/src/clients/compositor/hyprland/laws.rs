//! What holds of every run of the event normalizer, whatever the
//! compositor sends and answers.

use super::data::{
    first_named, name_of, reported, shown_on_some_monitor, snapshot, workspace_named, HMonitor,
    HWorkspaceView,
};
use super::events::{
    dropped, focus_change, in_focus, sent, step, EventError, RawEventView, ReplyView, Step,
};
use crate::clients::compositor::{Visibility, WorkspaceUpdateView, WorkspaceView};
use vstd::prelude::*;

verus! {

/// The cache and all updates sent after a run of notifications.
pub struct Trace {
    pub active: Option<WorkspaceView>,
    pub updates: Seq<WorkspaceUpdateView>,
}

/// The cache and the updates sent to the workspace subscribers after the
/// notifications `inputs`, each with the compositor's answer to it, were
/// handled one after the other, starting with the cache at `active`.
pub open spec fn run(active: Option<WorkspaceView>, inputs: Seq<(RawEventView, ReplyView)>) -> Trace
    decreases inputs.len(),
{
    if inputs.len() == 0 {
        Trace { active, updates: Seq::empty() }
    } else {
        let before = run(active, inputs.drop_last());
        let last = step(before.active, inputs.last().0, inputs.last().1);
        Trace { active: last.active, updates: before.updates + last.outcome.updates }
    }
}

/// The workspace that has the focus after `updates`: the one the last
/// focus change among them went to, or `initial` if there was none.
pub open spec fn last_focus(
    initial: Option<WorkspaceView>,
    updates: Seq<WorkspaceUpdateView>,
) -> Option<WorkspaceView>
    decreases updates.len(),
{
    if updates.len() == 0 {
        initial
    } else {
        match updates.last() {
            WorkspaceUpdateView::Focus { old, new } => Some(new),
            _ => last_focus(initial, updates.drop_last()),
        }
    }
}

/// Every focus change among `updates` leaves the workspace that had the
/// focus just before it: the one the focus change before it went to, or
/// `initial` for the first of them.
pub open spec fn focus_changes_chain(
    initial: Option<WorkspaceView>,
    updates: Seq<WorkspaceUpdateView>,
) -> bool {
    forall|i: int|
        0 <= i < updates.len() ==> (#[trigger] updates[i] matches WorkspaceUpdateView::Focus {
            old,
            new,
        } ==> old == last_focus(initial, updates.take(i)))
}

/// Every focus change among `updates` is followed at once by the update
/// that clears the urgency of the workspace the focus went to.
pub open spec fn focus_clears_urgency(updates: Seq<WorkspaceUpdateView>) -> bool {
    forall|i: int|
        0 <= i < updates.len() ==> (#[trigger] updates[i] matches WorkspaceUpdateView::Focus {
            old,
            new,
        } ==> i + 1 < updates.len() && updates[i + 1] == WorkspaceUpdateView::Urgent {
            id: new.id,
            urgent: false,
        })
}

/// What one step sends is free of focus changes and leaves the cache
/// alone, or it is a focus change from the cache to a workspace that is
/// marked focused and then cached, with at most a move announced before
/// it.
spec fn well_shaped(active: Option<WorkspaceView>, taken: Step) -> bool {
    let updates = taken.outcome.updates;
    ||| taken.active == active && forall|i: int|
        0 <= i < updates.len() ==> !(#[trigger] updates[i] is Focus)
    ||| taken.active matches Some(target) && target.visibility == Visibility::Focused && (updates
        =~= focus_change(active, target) || (updates.len() == 3 && updates[0] is Move
        && updates.skip(1) =~= focus_change(active, target)))
}

proof fn lemma_step_well_shaped(
    active: Option<WorkspaceView>,
    event: RawEventView,
    reply: ReplyView,
)
    ensures
        well_shaped(active, step(active, event, reply)),
{
}

proof fn lemma_last_focus_concat(
    initial: Option<WorkspaceView>,
    first: Seq<WorkspaceUpdateView>,
    second: Seq<WorkspaceUpdateView>,
)
    ensures
        last_focus(initial, first + second) == last_focus(last_focus(initial, first), second),
    decreases second.len(),
{
    if second.len() == 0 {
        assert(first + second =~= first);
    } else {
        assert((first + second).last() == second.last());
        assert((first + second).drop_last() =~= first + second.drop_last());
        lemma_last_focus_concat(initial, first, second.drop_last());
    }
}

proof fn lemma_last_focus_without_focus(
    initial: Option<WorkspaceView>,
    updates: Seq<WorkspaceUpdateView>,
)
    requires
        forall|i: int| 0 <= i < updates.len() ==> !(#[trigger] updates[i] is Focus),
    ensures
        last_focus(initial, updates) == initial,
    decreases updates.len(),
{
    if updates.len() > 0 {
        assert(!(updates[updates.len() - 1] is Focus));
        lemma_last_focus_without_focus(initial, updates.drop_last());
    }
}

proof fn lemma_well_shaped_last_focus(active: Option<WorkspaceView>, taken: Step)
    requires
        well_shaped(active, taken),
    ensures
        last_focus(active, taken.outcome.updates) == taken.active,
{
    let updates = taken.outcome.updates;
    if taken.active == active && forall|i: int|
        0 <= i < updates.len() ==> !(#[trigger] updates[i] is Focus) {
        lemma_last_focus_without_focus(active, updates);
    } else {
        let workspace = taken.active->0;
        let n: int = updates.len() as int;
        if n == 3 {
            assert(updates[2] == updates.skip(1)[1]);
            assert(updates[1] == updates.skip(1)[0]);
        }
        assert(updates[n - 1] == WorkspaceUpdateView::Urgent { id: workspace.id, urgent: false });
        assert(updates.drop_last()[n - 2] == WorkspaceUpdateView::Focus {
            old: active,
            new: workspace,
        });
        assert(last_focus(active, updates) == last_focus(active, updates.drop_last()));
    }
}

/// After any run the cache holds the workspace that the last focus change
/// went to, or what it held at the start if the focus never changed.
pub proof fn law_cache_follows_focus(
    active: Option<WorkspaceView>,
    inputs: Seq<(RawEventView, ReplyView)>,
)
    ensures
        run(active, inputs).active == last_focus(active, run(active, inputs).updates),
    decreases inputs.len(),
{
    if inputs.len() > 0 {
        let before = run(active, inputs.drop_last());
        let last = step(before.active, inputs.last().0, inputs.last().1);
        law_cache_follows_focus(active, inputs.drop_last());
        lemma_step_well_shaped(before.active, inputs.last().0, inputs.last().1);
        lemma_well_shaped_last_focus(before.active, last);
        lemma_last_focus_concat(active, before.updates, last.outcome.updates);
    }
}

/// For all sequences of notifications, every focus change that is sent
/// leaves exactly the workspace that the focus change sent before it went
/// to; the first one leaves the workspace that was cached at the start.
/// So a focus change leaves no workspace only if none was cached at the
/// start and it is the first.
pub proof fn law_focus_changes_chain(
    active: Option<WorkspaceView>,
    inputs: Seq<(RawEventView, ReplyView)>,
)
    ensures
        focus_changes_chain(active, run(active, inputs).updates),
        forall|i: int|
            0 <= i < run(active, inputs).updates.len() ==> (#[trigger] run(
                active,
                inputs,
            ).updates[i] matches WorkspaceUpdateView::Focus { old, new } ==> (old is None ==> active
                is None && forall|j: int|
                0 <= j < i ==> !(#[trigger] run(active, inputs).updates[j] is Focus))),
    decreases inputs.len(),
{
    let updates = run(active, inputs).updates;
    if inputs.len() > 0 {
        let before = run(active, inputs.drop_last());
        let last = step(before.active, inputs.last().0, inputs.last().1);
        let sent = last.outcome.updates;
        law_focus_changes_chain(active, inputs.drop_last());
        law_cache_follows_focus(active, inputs.drop_last());
        lemma_step_well_shaped(before.active, inputs.last().0, inputs.last().1);
        assert forall|i: int| 0 <= i < updates.len() implies (
        #[trigger] updates[i] matches WorkspaceUpdateView::Focus { old, new } ==> old
            == last_focus(active, updates.take(i))) by {
            if i < before.updates.len() {
                assert(updates[i] == before.updates[i]);
                assert(updates.take(i) =~= before.updates.take(i));
            } else if updates[i] is Focus {
                let k: int = i - before.updates.len();
                assert(updates[i] == sent[k]);
                assert(updates.take(i) =~= before.updates + sent.take(k));
                lemma_last_focus_concat(active, before.updates, sent.take(k));
                assert(forall|j: int| 0 <= j < k ==> !(#[trigger] sent.take(k)[j] is Focus));
                lemma_last_focus_without_focus(before.active, sent.take(k));
            }
        }
    }
    assert forall|i: int| 0 <= i < updates.len() implies (
    #[trigger] updates[i] matches WorkspaceUpdateView::Focus { old, new } ==> (old is None
        ==> active is None && forall|j: int| 0 <= j < i ==> !(#[trigger] updates[j] is Focus))) by {
        if updates[i] matches WorkspaceUpdateView::Focus { old, new } && old is None {
            lemma_last_focus_none(active, updates.take(i));
            assert forall|j: int| 0 <= j < i implies !(#[trigger] updates[j] is Focus) by {
                assert(updates.take(i)[j] == updates[j]);
            }
        }
    }
}

proof fn lemma_last_focus_none(initial: Option<WorkspaceView>, updates: Seq<WorkspaceUpdateView>)
    requires
        last_focus(initial, updates) is None,
    ensures
        initial is None,
        forall|i: int| 0 <= i < updates.len() ==> !(#[trigger] updates[i] is Focus),
    decreases updates.len(),
{
    if updates.len() > 0 {
        lemma_last_focus_none(initial, updates.drop_last());
        assert forall|i: int| 0 <= i < updates.len() implies !(#[trigger] updates[i] is Focus) by {
            if i < updates.len() - 1 {
                assert(updates.drop_last()[i] == updates[i]);
            }
        }
    }
}

/// For all sequences of notifications, every focus change that is sent
/// goes to a workspace that is marked focused.
pub proof fn law_focus_goes_to_focused(
    active: Option<WorkspaceView>,
    inputs: Seq<(RawEventView, ReplyView)>,
)
    ensures
        forall|i: int|
            0 <= i < run(active, inputs).updates.len() ==> (#[trigger] run(
                active,
                inputs,
            ).updates[i] matches WorkspaceUpdateView::Focus { old, new } ==> new.visibility
                == Visibility::Focused),
    decreases inputs.len(),
{
    let updates = run(active, inputs).updates;
    if inputs.len() > 0 {
        let before = run(active, inputs.drop_last());
        let last = step(before.active, inputs.last().0, inputs.last().1);
        let sent = last.outcome.updates;
        law_focus_goes_to_focused(active, inputs.drop_last());
        lemma_step_well_shaped(before.active, inputs.last().0, inputs.last().1);
        assert forall|i: int| 0 <= i < updates.len() implies (
        #[trigger] updates[i] matches WorkspaceUpdateView::Focus { old, new } ==> new.visibility
            == Visibility::Focused) by {
            if i < before.updates.len() {
                assert(updates[i] == before.updates[i]);
            } else if updates[i] is Focus {
                let k: int = i - before.updates.len();
                assert(updates[i] == sent[k]);
                if sent.len() == 3 {
                    assert(sent[1] == sent.skip(1)[0]);
                    assert(sent[2] == sent.skip(1)[1]);
                }
            }
        }
    }
}

/// For all sequences of notifications, every focus change that is sent is
/// followed at once, before any other update, by the update that clears
/// the urgency of the workspace the focus went to.
pub proof fn law_focus_clears_urgency(
    active: Option<WorkspaceView>,
    inputs: Seq<(RawEventView, ReplyView)>,
)
    ensures
        focus_clears_urgency(run(active, inputs).updates),
    decreases inputs.len(),
{
    let updates = run(active, inputs).updates;
    if inputs.len() > 0 {
        let before = run(active, inputs.drop_last());
        let last = step(before.active, inputs.last().0, inputs.last().1);
        let sent = last.outcome.updates;
        law_focus_clears_urgency(active, inputs.drop_last());
        lemma_step_well_shaped(before.active, inputs.last().0, inputs.last().1);
        assert forall|i: int| 0 <= i < updates.len() implies (
        #[trigger] updates[i] matches WorkspaceUpdateView::Focus { old, new } ==> i + 1
            < updates.len() && updates[i + 1] == WorkspaceUpdateView::Urgent {
            id: new.id,
            urgent: false,
        }) by {
            if i < before.updates.len() {
                assert(updates[i] == before.updates[i]);
                if updates[i] is Focus {
                    assert(updates[i + 1] == before.updates[i + 1]);
                }
            } else if updates[i] is Focus {
                let k: int = i - before.updates.len();
                assert(updates[i] == sent[k]);
                assert(updates[i + 1] == sent[k + 1]);
            }
        }
    }
}

/// A change of the active workspace to one that resolves as focused
/// already sends nothing, reports nothing and leaves the cache alone.
pub proof fn law_changed_to_focused_is_silent(
    active: Option<WorkspaceView>,
    name: Seq<char>,
    workspaces: Seq<HWorkspaceView>,
    monitors: Option<Seq<HMonitor>>,
)
    requires
        workspace_named(name, name_of(active), workspaces, reported(monitors)) matches Some(workspace)
            && workspace.visibility == Visibility::Focused,
    ensures
        step(
            active,
            RawEventView::Changed(name),
            ReplyView::Workspaces { workspaces, monitors },
        ) == (Step { active, outcome: sent(Seq::empty()) }),
{
}

/// A move of a workspace that does not resolve as focused sends the move
/// of the workspace as it resolved and then the change of focus to it,
/// marked focused, in that order; and the workspace so marked becomes the
/// cached one.
pub proof fn law_moved_unfocused_changes_focus(
    active: Option<WorkspaceView>,
    name: Seq<char>,
    workspaces: Seq<HWorkspaceView>,
    monitors: Option<Seq<HMonitor>>,
)
    requires
        workspace_named(name, name_of(active), workspaces, reported(monitors)) matches Some(workspace)
            && workspace.visibility != Visibility::Focused,
    ensures
        ({
            let workspace = workspace_named(name, name_of(active), workspaces, reported(monitors))->0;
            let taken = step(
                active,
                RawEventView::Moved(name),
                ReplyView::Workspaces { workspaces, monitors },
            );
            &&& taken.active == Some(in_focus(workspace))
            &&& taken.outcome.error is None
            &&& taken.outcome.layout is None
            &&& taken.outcome.updates == seq![
                WorkspaceUpdateView::Move(workspace),
                WorkspaceUpdateView::Focus { old: active, new: in_focus(workspace) },
                WorkspaceUpdateView::Urgent { id: workspace.id, urgent: false },
            ]
        }),
{
    let workspace = workspace_named(name, name_of(active), workspaces, reported(monitors))->0;
    assert(seq![WorkspaceUpdateView::Move(workspace)] + focus_change(
        active,
        in_focus(workspace),
    ) =~= seq![
        WorkspaceUpdateView::Move(workspace),
        WorkspaceUpdateView::Focus { old: active, new: in_focus(workspace) },
        WorkspaceUpdateView::Urgent { id: workspace.id, urgent: false },
    ]);
}

/// A change of the active monitor that names no workspace sends nothing
/// and reports one error, whatever the compositor answered.
pub proof fn law_monitor_without_workspace_is_dropped(
    active: Option<WorkspaceView>,
    monitor_name: Seq<char>,
    reply: ReplyView,
)
    ensures
        step(
            active,
            RawEventView::ActiveMonitorChanged { monitor_name, workspace_name: None },
            reply,
        ) == (Step { active, outcome: dropped(EventError::NoWorkspaceOnMonitor) }),
{
}

/// A notification that is dropped changes nothing: whenever an error is
/// reported, no update is sent on either channel and the cache stays as
/// it was, so that later notifications are handled as if the dropped one
/// had never come.
pub proof fn law_dropped_event_changes_nothing(
    active: Option<WorkspaceView>,
    event: RawEventView,
    reply: ReplyView,
)
    requires
        step(active, event, reply).outcome.error is Some,
    ensures
        step(active, event, reply).active == active,
        step(active, event, reply).outcome.updates.len() == 0,
        step(active, event, reply).outcome.layout is None,
{
}

/// A workspace is looked up by name in the order in which the compositor
/// reports the workspaces: the one that is found bears the name and no
/// workspace before it does, and none is found exactly when no workspace
/// bears the name.
pub proof fn law_first_named_comes_first(workspaces: Seq<HWorkspaceView>, name: Seq<char>)
    ensures
        match first_named(workspaces, name) {
            Some(workspace) => exists|i: int|
                0 <= i < workspaces.len() && #[trigger] workspaces[i] == workspace
                    && workspace.name == name && forall|j: int|
                    0 <= j < i ==> (#[trigger] workspaces[j]).name != name,
            None => forall|i: int|
                0 <= i < workspaces.len() ==> (#[trigger] workspaces[i]).name != name,
        },
    decreases workspaces.len(),
{
    if workspaces.len() == 0 {
    } else if workspaces[0].name == name {
        assert(workspaces[0] == workspaces[0]);
    } else {
        let rest = workspaces.drop_first();
        law_first_named_comes_first(rest, name);
        assert(forall|i: int| 0 <= i < rest.len() ==> rest[i] == workspaces[i + 1]);
        match first_named(rest, name) {
            Some(workspace) => {
                let i = choose|i: int|
                    0 <= i < rest.len() && #[trigger] rest[i] == workspace && workspace.name
                        == name && forall|j: int| 0 <= j < i ==> (#[trigger] rest[j]).name != name;
                assert(workspaces[i + 1] == workspace);
                assert forall|j: int| 0 <= j < i + 1 implies (#[trigger] workspaces[j]).name
                    != name by {
                    if j > 0 {
                        assert(rest[j - 1].name != name);
                    }
                }
            },
            None => {
                assert forall|i: int| 0 <= i < workspaces.len() implies (
                #[trigger] workspaces[i]).name != name by {
                    if i > 0 {
                        assert(rest[i - 1].name != name);
                    }
                }
            },
        }
    }
}

/// The snapshot for a new subscriber holds exactly the workspaces that
/// the compositor reports, in its order and with their identifiers, names
/// and monitors; a workspace is marked focused exactly when it bears the
/// active name, and otherwise visible exactly when a monitor shows it.
pub proof fn law_snapshot_matches_query(
    active_name: Option<Seq<char>>,
    workspaces: Seq<HWorkspaceView>,
    monitors: Seq<HMonitor>,
)
    ensures
        snapshot(active_name, workspaces, monitors).len() == workspaces.len(),
        forall|i: int|
            0 <= i < workspaces.len() ==> ({
                let seen = #[trigger] snapshot(active_name, workspaces, monitors)[i];
                &&& seen.id == workspaces[i].id
                &&& seen.name == workspaces[i].name
                &&& seen.monitor == workspaces[i].monitor
                &&& seen.visibility == Visibility::Focused <==> active_name == Some(
                    workspaces[i].name,
                )
                &&& seen.visibility == Visibility::Visible <==> active_name != Some(
                    workspaces[i].name,
                ) && shown_on_some_monitor(monitors, workspaces[i].id)
            }),
{
}

/// Where the workspaces that the compositor reports have names of their
/// own and one of them bears the active name, that one is the only entry
/// of the snapshot that is marked focused.
pub proof fn law_snapshot_has_one_focused(
    active_name: Seq<char>,
    workspaces: Seq<HWorkspaceView>,
    monitors: Seq<HMonitor>,
    focused: int,
)
    requires
        forall|i: int, j: int|
            0 <= i < j < workspaces.len() ==> (#[trigger] workspaces[i]).name != (
            #[trigger] workspaces[j]).name,
        0 <= focused < workspaces.len(),
        workspaces[focused].name == active_name,
    ensures
        forall|i: int|
            0 <= i < workspaces.len() ==> ((#[trigger] snapshot(
                Some(active_name),
                workspaces,
                monitors,
            )[i]).visibility == Visibility::Focused <==> i == focused),
{
    assert forall|i: int| 0 <= i < workspaces.len() implies ((#[trigger] snapshot(
        Some(active_name),
        workspaces,
        monitors,
    )[i]).visibility == Visibility::Focused <==> i == focused) by {
        if i < focused {
            assert(workspaces[i].name != workspaces[focused].name);
        } else if focused < i {
            assert(workspaces[focused].name != workspaces[i].name);
        }
    }
}

/// Where no workspace is known to be active, or none of the reported
/// workspaces bears the active name, no entry of the snapshot is marked
/// focused.
pub proof fn law_snapshot_without_focus(
    active_name: Option<Seq<char>>,
    workspaces: Seq<HWorkspaceView>,
    monitors: Seq<HMonitor>,
)
    requires
        forall|i: int|
            0 <= i < workspaces.len() ==> active_name != Some((#[trigger] workspaces[i]).name),
    ensures
        forall|i: int|
            0 <= i < workspaces.len() ==> (#[trigger] snapshot(
                active_name,
                workspaces,
                monitors,
            )[i]).visibility != Visibility::Focused,
{
}

} // verus!
