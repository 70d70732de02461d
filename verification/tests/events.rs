use ironbar::clients::compositor::hyprland::{
    handle_event, required_query, send_focus_change, EventError, HClient, HMonitor, HWorkspace,
    Outcome, Query, RawEvent, Reply, WorkspaceType,
};
use ironbar::clients::compositor::{KeyboardLayoutUpdate, Visibility, Workspace, WorkspaceUpdate};

fn raw(id: i32, name: &str, monitor: &str) -> HWorkspace {
    HWorkspace { id, name: name.to_string(), monitor: monitor.to_string() }
}

fn seen(id: i64, name: &str, monitor: &str, visibility: Visibility) -> Workspace {
    Workspace { id, name: name.to_string(), monitor: monitor.to_string(), visibility }
}

fn regular(name: &str) -> WorkspaceType {
    WorkspaceType::Regular(name.to_string())
}

fn shows(active_workspace_id: i32) -> HMonitor {
    HMonitor { id: 0, active_workspace_id }
}

/// Three workspaces on two monitors; the monitors show 1 and 3.
fn three_workspaces() -> Reply {
    Reply::Workspaces {
        workspaces: vec![raw(1, "1", "DP-1"), raw(2, "2", "DP-1"), raw(3, "3", "DP-2")],
        monitors: Some(vec![
            HMonitor { id: 0, active_workspace_id: 1 },
            HMonitor { id: 1, active_workspace_id: 3 },
        ]),
    }
}

fn sent(updates: Vec<WorkspaceUpdate>) -> Outcome {
    Outcome { updates, layout: None, error: None }
}

fn dropped(error: EventError) -> Outcome {
    Outcome { updates: vec![], layout: None, error: Some(error) }
}

#[test]
fn each_event_asks_for_what_it_needs() {
    assert_eq!(required_query(&RawEvent::Added(regular("1"))), Query::Workspaces);
    assert_eq!(required_query(&RawEvent::Changed(regular("1"))), Query::Workspaces);
    assert_eq!(required_query(&RawEvent::Moved(regular("1"))), Query::Workspaces);
    assert_eq!(
        required_query(&RawEvent::ActiveMonitorChanged {
            monitor_name: "DP-1".to_string(),
            workspace_name: Some(regular("1")),
        }),
        Query::Workspaces
    );
    assert_eq!(
        required_query(&RawEvent::ActiveMonitorChanged {
            monitor_name: "DP-1".to_string(),
            workspace_name: None,
        }),
        Query::Nothing
    );
    assert_eq!(
        required_query(&RawEvent::Renamed { id: 1, name: "web".to_string() }),
        Query::Nothing
    );
    assert_eq!(required_query(&RawEvent::Deleted { id: 1 }), Query::Nothing);
    assert_eq!(
        required_query(&RawEvent::UrgentStateChanged { address: "0x1".to_string() }),
        Query::Clients
    );
    assert_eq!(
        required_query(&RawEvent::LayoutChanged { layout_name: "de".to_string() }),
        Query::Nothing
    );
}

#[test]
fn focus_change_sends_focus_then_clears_urgency_and_caches() {
    let mut cache = Some(seen(1, "1", "DP-1", Visibility::Focused));
    let mut outbox = vec![WorkspaceUpdate::Remove(9)];
    send_focus_change(&mut cache, seen(2, "2", "DP-1", Visibility::Hidden), &mut outbox);
    assert_eq!(
        outbox,
        vec![
            WorkspaceUpdate::Remove(9),
            WorkspaceUpdate::Focus {
                old: Some(seen(1, "1", "DP-1", Visibility::Focused)),
                new: seen(2, "2", "DP-1", Visibility::Hidden),
            },
            WorkspaceUpdate::Urgent { id: 2, urgent: false },
        ]
    );
    assert_eq!(cache, Some(seen(2, "2", "DP-1", Visibility::Hidden)));
}

#[test]
fn focus_change_from_empty_cache_has_no_old_workspace() {
    let mut cache = None;
    let mut outbox = Vec::new();
    send_focus_change(&mut cache, seen(4, "4", "DP-2", Visibility::Visible), &mut outbox);
    assert_eq!(
        outbox,
        vec![
            WorkspaceUpdate::Focus { old: None, new: seen(4, "4", "DP-2", Visibility::Visible) },
            WorkspaceUpdate::Urgent { id: 4, urgent: false },
        ]
    );
    assert_eq!(cache, Some(seen(4, "4", "DP-2", Visibility::Visible)));
}

#[test]
fn added_workspace_is_announced_with_its_visibility() {
    let mut cache = Some(seen(1, "1", "DP-1", Visibility::Focused));
    let outcome = handle_event(&mut cache, RawEvent::Added(regular("3")), three_workspaces());
    assert_eq!(
        outcome,
        sent(vec![WorkspaceUpdate::Add(seen(3, "3", "DP-2", Visibility::Visible))])
    );
    assert_eq!(cache, Some(seen(1, "1", "DP-1", Visibility::Focused)));

    let outcome = handle_event(&mut cache, RawEvent::Added(regular("2")), three_workspaces());
    assert_eq!(outcome, sent(vec![WorkspaceUpdate::Add(seen(2, "2", "DP-1", Visibility::Hidden))]));

    let outcome = handle_event(&mut cache, RawEvent::Added(regular("1")), three_workspaces());
    assert_eq!(
        outcome,
        sent(vec![WorkspaceUpdate::Add(seen(1, "1", "DP-1", Visibility::Focused))])
    );
}

#[test]
fn added_workspace_that_cannot_be_found_is_dropped() {
    let mut cache = Some(seen(1, "1", "DP-1", Visibility::Focused));
    let outcome = handle_event(&mut cache, RawEvent::Added(regular("7")), three_workspaces());
    assert_eq!(outcome, dropped(EventError::WorkspaceNotFound));
    assert_eq!(cache, Some(seen(1, "1", "DP-1", Visibility::Focused)));
}

#[test]
fn special_workspace_without_name_resolves_by_empty_name() {
    let mut cache = None;
    let reply = Reply::Workspaces {
        workspaces: vec![raw(1, "1", "DP-1"), raw(-99, "", "DP-1")],
        monitors: Some(vec![shows(1)]),
    };
    let outcome = handle_event(&mut cache, RawEvent::Added(WorkspaceType::Special(None)), reply);
    assert_eq!(outcome, sent(vec![WorkspaceUpdate::Add(seen(-99, "", "DP-1", Visibility::Hidden))]));
}

#[test]
fn changed_to_another_workspace_changes_focus() {
    let mut cache = Some(seen(1, "1", "DP-1", Visibility::Focused));
    let outcome = handle_event(&mut cache, RawEvent::Changed(regular("2")), three_workspaces());
    assert_eq!(
        outcome,
        sent(vec![
            WorkspaceUpdate::Focus {
                old: Some(seen(1, "1", "DP-1", Visibility::Focused)),
                new: seen(2, "2", "DP-1", Visibility::Focused),
            },
            WorkspaceUpdate::Urgent { id: 2, urgent: false },
        ])
    );
    assert_eq!(cache, Some(seen(2, "2", "DP-1", Visibility::Focused)));
}

#[test]
fn changed_to_the_focused_workspace_sends_nothing() {
    let mut cache = Some(seen(1, "1", "DP-1", Visibility::Focused));
    let outcome = handle_event(&mut cache, RawEvent::Changed(regular("1")), three_workspaces());
    assert_eq!(outcome, sent(vec![]));
    assert_eq!(cache, Some(seen(1, "1", "DP-1", Visibility::Focused)));
}

#[test]
fn changed_to_unknown_workspace_is_dropped() {
    let mut cache = Some(seen(1, "1", "DP-1", Visibility::Focused));
    let outcome = handle_event(&mut cache, RawEvent::Changed(regular("9")), three_workspaces());
    assert_eq!(outcome, dropped(EventError::WorkspaceNotFound));
    assert_eq!(cache, Some(seen(1, "1", "DP-1", Visibility::Focused)));
}

#[test]
fn active_monitor_change_without_workspace_sends_nothing_and_reports_one_error() {
    let mut cache = Some(seen(1, "1", "DP-1", Visibility::Focused));
    let event = RawEvent::ActiveMonitorChanged {
        monitor_name: "DP-2".to_string(),
        workspace_name: None,
    };
    let outcome = handle_event(&mut cache, event, Reply::Nothing);
    assert_eq!(outcome, dropped(EventError::NoWorkspaceOnMonitor));
    assert_eq!(cache, Some(seen(1, "1", "DP-1", Visibility::Focused)));

    let event = RawEvent::ActiveMonitorChanged {
        monitor_name: "DP-2".to_string(),
        workspace_name: None,
    };
    let outcome = handle_event(&mut cache, event, three_workspaces());
    assert_eq!(outcome, dropped(EventError::NoWorkspaceOnMonitor));
}

#[test]
fn active_monitor_change_moves_focus_to_the_monitors_workspace() {
    let mut cache = Some(seen(1, "1", "DP-1", Visibility::Focused));
    let event = RawEvent::ActiveMonitorChanged {
        monitor_name: "DP-2".to_string(),
        workspace_name: Some(regular("3")),
    };
    let outcome = handle_event(&mut cache, event, three_workspaces());
    assert_eq!(
        outcome,
        sent(vec![
            WorkspaceUpdate::Focus {
                old: Some(seen(1, "1", "DP-1", Visibility::Focused)),
                new: seen(3, "3", "DP-2", Visibility::Focused),
            },
            WorkspaceUpdate::Urgent { id: 3, urgent: false },
        ])
    );
    assert_eq!(cache, Some(seen(3, "3", "DP-2", Visibility::Focused)));
}

#[test]
fn active_monitor_change_to_the_focused_workspace_is_reported() {
    let mut cache = Some(seen(1, "1", "DP-1", Visibility::Focused));
    let event = RawEvent::ActiveMonitorChanged {
        monitor_name: "DP-1".to_string(),
        workspace_name: Some(regular("1")),
    };
    let outcome = handle_event(&mut cache, event, three_workspaces());
    assert_eq!(outcome, dropped(EventError::WorkspaceNotFound));
    assert_eq!(cache, Some(seen(1, "1", "DP-1", Visibility::Focused)));
}

#[test]
fn active_monitor_change_to_unknown_workspace_is_reported() {
    let mut cache = None;
    let event = RawEvent::ActiveMonitorChanged {
        monitor_name: "DP-1".to_string(),
        workspace_name: Some(regular("8")),
    };
    let outcome = handle_event(&mut cache, event, three_workspaces());
    assert_eq!(outcome, dropped(EventError::WorkspaceNotFound));
    assert_eq!(cache, None);
}

#[test]
fn moved_unfocused_workspace_sends_move_then_focus_change() {
    let mut cache = Some(seen(1, "1", "DP-1", Visibility::Focused));
    let outcome = handle_event(&mut cache, RawEvent::Moved(regular("3")), three_workspaces());
    assert_eq!(
        outcome,
        sent(vec![
            WorkspaceUpdate::Move(seen(3, "3", "DP-2", Visibility::Visible)),
            WorkspaceUpdate::Focus {
                old: Some(seen(1, "1", "DP-1", Visibility::Focused)),
                new: seen(3, "3", "DP-2", Visibility::Focused),
            },
            WorkspaceUpdate::Urgent { id: 3, urgent: false },
        ])
    );
    assert_eq!(cache, Some(seen(3, "3", "DP-2", Visibility::Focused)));
}

#[test]
fn moved_focused_workspace_sends_only_the_move() {
    let mut cache = Some(seen(1, "1", "DP-2", Visibility::Focused));
    let outcome = handle_event(&mut cache, RawEvent::Moved(regular("1")), three_workspaces());
    assert_eq!(
        outcome,
        sent(vec![WorkspaceUpdate::Move(seen(1, "1", "DP-1", Visibility::Focused))])
    );
    assert_eq!(cache, Some(seen(1, "1", "DP-2", Visibility::Focused)));
}

#[test]
fn moved_unknown_workspace_is_dropped() {
    let mut cache = None;
    let outcome = handle_event(&mut cache, RawEvent::Moved(regular("5")), three_workspaces());
    assert_eq!(outcome, dropped(EventError::WorkspaceNotFound));
}

#[test]
fn renamed_and_deleted_come_straight_from_the_event() {
    let mut cache = Some(seen(1, "1", "DP-1", Visibility::Focused));
    let outcome = handle_event(
        &mut cache,
        RawEvent::Renamed { id: 2, name: "mail".to_string() },
        Reply::Nothing,
    );
    assert_eq!(outcome, sent(vec![WorkspaceUpdate::Rename { id: 2, name: "mail".to_string() }]));
    let outcome = handle_event(&mut cache, RawEvent::Deleted { id: -3 }, Reply::Failed);
    assert_eq!(outcome, sent(vec![WorkspaceUpdate::Remove(-3)]));
    assert_eq!(cache, Some(seen(1, "1", "DP-1", Visibility::Focused)));
}

#[test]
fn urgent_client_marks_its_workspace() {
    let mut cache = None;
    let clients = Reply::Clients(vec![
        HClient { address: "0xaa".to_string(), workspace_id: 4 },
        HClient { address: "0xbb".to_string(), workspace_id: 2 },
        HClient { address: "0xbb".to_string(), workspace_id: 6 },
    ]);
    let outcome = handle_event(
        &mut cache,
        RawEvent::UrgentStateChanged { address: "0xbb".to_string() },
        clients,
    );
    assert_eq!(outcome, sent(vec![WorkspaceUpdate::Urgent { id: 2, urgent: true }]));
    assert_eq!(cache, None);
}

#[test]
fn urgent_unknown_client_is_reported() {
    let mut cache = None;
    let clients = Reply::Clients(vec![HClient { address: "0xaa".to_string(), workspace_id: 4 }]);
    let outcome = handle_event(
        &mut cache,
        RawEvent::UrgentStateChanged { address: "0xcc".to_string() },
        clients,
    );
    assert_eq!(outcome, dropped(EventError::ClientNotFound));
}

#[test]
fn missing_snapshot_drops_the_event() {
    let mut cache = Some(seen(1, "1", "DP-1", Visibility::Focused));
    for reply in [Reply::Failed, Reply::Nothing, Reply::Clients(vec![])] {
        let outcome = handle_event(&mut cache, RawEvent::Changed(regular("2")), reply);
        assert_eq!(outcome, dropped(EventError::QueryFailed));
    }
    let outcome = handle_event(&mut cache, RawEvent::Added(regular("2")), Reply::Failed);
    assert_eq!(outcome, dropped(EventError::QueryFailed));
    let outcome = handle_event(&mut cache, RawEvent::Moved(regular("2")), Reply::Failed);
    assert_eq!(outcome, dropped(EventError::QueryFailed));
    let event = RawEvent::ActiveMonitorChanged {
        monitor_name: "DP-1".to_string(),
        workspace_name: Some(regular("2")),
    };
    let outcome = handle_event(&mut cache, event, Reply::Failed);
    assert_eq!(outcome, dropped(EventError::QueryFailed));
    let outcome = handle_event(
        &mut cache,
        RawEvent::UrgentStateChanged { address: "0xaa".to_string() },
        three_workspaces(),
    );
    assert_eq!(outcome, dropped(EventError::QueryFailed));
    assert_eq!(cache, Some(seen(1, "1", "DP-1", Visibility::Focused)));
}

#[test]
fn layout_change_goes_to_the_keyboard_subscribers() {
    let mut cache = None;
    let outcome = handle_event(
        &mut cache,
        RawEvent::LayoutChanged { layout_name: "English (US)".to_string() },
        Reply::Nothing,
    );
    assert_eq!(
        outcome,
        Outcome {
            updates: vec![],
            layout: Some(KeyboardLayoutUpdate("English (US)".to_string())),
            error: None,
        }
    );
}

#[test]
fn added_changed_urgent_yields_add_focus_and_both_urgency_updates() {
    let mut cache = None;
    let mut updates = Vec::new();
    let snapshot = || Reply::Workspaces {
        workspaces: vec![raw(1, "1", "mon0")],
        monitors: Some(vec![shows(1)]),
    };
    updates.extend(handle_event(&mut cache, RawEvent::Added(regular("1")), snapshot()).updates);
    updates.extend(handle_event(&mut cache, RawEvent::Changed(regular("1")), snapshot()).updates);
    updates.extend(
        handle_event(
            &mut cache,
            RawEvent::UrgentStateChanged { address: "A".to_string() },
            Reply::Clients(vec![HClient { address: "A".to_string(), workspace_id: 1 }]),
        )
        .updates,
    );
    assert_eq!(
        updates,
        vec![
            WorkspaceUpdate::Add(seen(1, "1", "mon0", Visibility::Visible)),
            WorkspaceUpdate::Focus { old: None, new: seen(1, "1", "mon0", Visibility::Focused) },
            WorkspaceUpdate::Urgent { id: 1, urgent: false },
            WorkspaceUpdate::Urgent { id: 1, urgent: true },
        ]
    );
    assert_eq!(cache, Some(seen(1, "1", "mon0", Visibility::Focused)));
}

#[test]
fn every_focus_change_leaves_the_workspace_the_last_one_went_to() {
    let start = seen(1, "1", "DP-1", Visibility::Focused);
    let mut cache = Some(start.clone());
    let mut updates = Vec::new();
    let events = vec![
        RawEvent::Changed(regular("2")),
        RawEvent::Added(regular("3")),
        RawEvent::Moved(regular("3")),
        RawEvent::Changed(regular("3")),
        RawEvent::Deleted { id: 2 },
        RawEvent::ActiveMonitorChanged {
            monitor_name: "DP-1".to_string(),
            workspace_name: Some(regular("1")),
        },
        RawEvent::Changed(regular("9")),
        RawEvent::Changed(regular("2")),
    ];
    for event in events {
        updates.extend(handle_event(&mut cache, event, three_workspaces()).updates);
    }
    let mut expected_old = Some(start);
    let mut focus_changes = 0;
    for (i, update) in updates.iter().enumerate() {
        if let WorkspaceUpdate::Focus { old, new } = update {
            assert_eq!(old, &expected_old);
            assert_eq!(updates[i + 1], WorkspaceUpdate::Urgent { id: new.id, urgent: false });
            expected_old = Some(new.clone());
            focus_changes += 1;
        }
    }
    assert_eq!(focus_changes, 4);
    assert_eq!(cache, expected_old);
    assert_eq!(cache, Some(seen(2, "2", "DP-1", Visibility::Focused)));
}

#[test]
fn every_focus_change_goes_to_a_workspace_marked_focused() {
    let mut cache = None;
    let mut updates = Vec::new();
    let events = vec![
        RawEvent::Changed(regular("3")),
        RawEvent::Moved(regular("2")),
        RawEvent::ActiveMonitorChanged {
            monitor_name: "DP-1".to_string(),
            workspace_name: Some(regular("1")),
        },
    ];
    for event in events {
        updates.extend(handle_event(&mut cache, event, three_workspaces()).updates);
    }
    let targets: Vec<&Workspace> = updates
        .iter()
        .filter_map(|update| match update {
            WorkspaceUpdate::Focus { new, .. } => Some(new),
            _ => None,
        })
        .collect();
    assert_eq!(
        targets,
        vec![
            &seen(3, "3", "DP-2", Visibility::Focused),
            &seen(2, "2", "DP-1", Visibility::Focused),
            &seen(1, "1", "DP-1", Visibility::Focused),
        ]
    );
    assert_eq!(updates[2], WorkspaceUpdate::Move(seen(2, "2", "DP-1", Visibility::Hidden)));
    assert_eq!(cache, Some(seen(1, "1", "DP-1", Visibility::Focused)));
}

#[test]
fn without_monitors_no_workspace_counts_as_shown() {
    let mut cache = Some(seen(1, "1", "DP-1", Visibility::Focused));
    let reply = || Reply::Workspaces {
        workspaces: vec![raw(1, "1", "DP-1"), raw(3, "3", "DP-2")],
        monitors: None,
    };
    let outcome = handle_event(&mut cache, RawEvent::Added(regular("3")), reply());
    assert_eq!(outcome, sent(vec![WorkspaceUpdate::Add(seen(3, "3", "DP-2", Visibility::Hidden))]));
    let outcome = handle_event(&mut cache, RawEvent::Added(regular("1")), reply());
    assert_eq!(
        outcome,
        sent(vec![WorkspaceUpdate::Add(seen(1, "1", "DP-1", Visibility::Focused))])
    );
    let outcome = handle_event(&mut cache, RawEvent::Moved(regular("3")), reply());
    assert_eq!(
        outcome,
        sent(vec![
            WorkspaceUpdate::Move(seen(3, "3", "DP-2", Visibility::Hidden)),
            WorkspaceUpdate::Focus {
                old: Some(seen(1, "1", "DP-1", Visibility::Focused)),
                new: seen(3, "3", "DP-2", Visibility::Focused),
            },
            WorkspaceUpdate::Urgent { id: 3, urgent: false },
        ])
    );
}
