//! The journal screen.
use superseedr::app::{AppMode, AppState, JournalFilter};
use superseedr::event_journal::{
    EventCategory, EventDetails, EventJournalEntry, EventJournalState, EventScope, EventType,
};
use superseedr::geometry::{Constraint, Rect};
use superseedr::keys::{KeyCode, KeyEvent, KeyEventKind, KeyModifiers, TerminalEvent};
use superseedr::paths::{
    compact_path_label, eq_ignore_ascii_case, extension, file_name, FilePath, PathStep,
};
use superseedr::search::SearchMode;
use superseedr::text::{replace_text, sanitize_text};
use superseedr::tui::screens::journal::activities::{
    activity_phase, activity_search_haystack, activity_subject_label, entry_matches_filter,
    journal_activities, ActivityPhase, JournalActivity,
};
use superseedr::tui::screens::journal::labels::{
    column_constraint, column_header, columns_for_filter, command_action_label, detail_text,
    detailed_timestamp, detailed_timestamp_at, event_status_color, event_type_label, preferred_source_text,
    pretty_timestamp, pretty_timestamp_at, source_label, time_since_label, time_since_moment, torrent_label, EventTone,
    JournalColumn, Moment,
};
use superseedr::tui::screens::journal::screen::{
    activity_detail_line, activity_detail_line_at, activity_status_parts, column_cell, journal_count_label, journal_footer,
};
use superseedr::tui::screens::journal::{
    calculate_journal_layout, finish_replay, handle_event, journal_detail_height,
    journal_page_rows, journal_table_window, map_key_to_journal_action, replay_command_for_path,
    replay_selected_entry, JournalAction, ReplayCommand, ReplayOutcome,
};

fn name(text: &str) -> Option<String> {
    Some(text.to_string())
}

fn path(text: &str) -> Option<FilePath> {
    Some(FilePath::new(text))
}

fn base_state() -> AppState {
    let mut state = AppState { mode: AppMode::Journal, ..Default::default() };
    state.event_journal_state = EventJournalState {
        entries: vec![
            EventJournalEntry {
                id: 1,
                category: EventCategory::Ingest,
                event_type: EventType::IngestAdded,
                torrent_name: name("Sample Alpha"),
                ..Default::default()
            },
            EventJournalEntry {
                id: 2,
                category: EventCategory::Control,
                event_type: EventType::ControlApplied,
                torrent_name: name("Sample Beta"),
                ..Default::default()
            },
            EventJournalEntry {
                id: 3,
                category: EventCategory::DataHealth,
                event_type: EventType::DataUnavailable,
                torrent_name: name("Sample Gamma"),
                ..Default::default()
            },
        ],
    };
    state
}

fn press(code: KeyCode) -> TerminalEvent {
    TerminalEvent::Key(KeyEvent::new(code, KeyModifiers::none()))
}

fn entry(state: &AppState, position: usize) -> &EventJournalEntry {
    &state.event_journal_state.entries[position]
}

fn latest<'a>(state: &'a AppState, activity: &JournalActivity) -> &'a EventJournalEntry {
    entry(state, activity.latest())
}

fn first<'a>(state: &'a AppState, activity: &JournalActivity) -> &'a EventJournalEntry {
    entry(state, activity.entries[0])
}

fn subject(state: &AppState, activity: &JournalActivity) -> String {
    activity_subject_label(&state.event_journal_state.entries, activity, false)
}

#[test]
fn tab_cycles_filters() {
    let mut app_state = base_state();

    handle_event(press(KeyCode::Tab), &mut app_state);
    assert_eq!(app_state.ui.journal.filter, JournalFilter::Queue);

    handle_event(press(KeyCode::Tab), &mut app_state);
    assert_eq!(app_state.ui.journal.filter, JournalFilter::Commands);
}

#[test]
fn journal_search_filters_activities_and_toggles_mode() {
    let mut app_state = base_state();

    handle_event(press(KeyCode::Char('/')), &mut app_state);
    for character in "sample beta".chars() {
        handle_event(press(KeyCode::Char(character)), &mut app_state);
    }

    assert!(app_state.ui.journal.is_searching);
    assert_eq!(app_state.ui.journal.search_mode, SearchMode::Regex);
    assert_eq!(journal_activities(&app_state).len(), 1);
    assert_eq!(latest(&app_state, &journal_activities(&app_state)[0]).id, 2);

    handle_event(press(KeyCode::Tab), &mut app_state);
    assert_eq!(app_state.ui.journal.search_mode, SearchMode::Fuzzy);
}

#[test]
fn journal_escape_clears_search_before_closing() {
    let mut app_state = base_state();
    app_state.ui.journal.is_searching = true;
    app_state.ui.journal.search_query = "sample".to_string();

    handle_event(press(KeyCode::Esc), &mut app_state);

    assert!(matches!(app_state.mode, AppMode::Journal));
    assert!(!app_state.ui.journal.is_searching);
    assert!(app_state.ui.journal.search_query.is_empty());
}

#[test]
fn filter_selection_matches_requested_groups() {
    let mut app_state = base_state();

    app_state.ui.journal.filter = JournalFilter::Queue;
    let added = journal_activities(&app_state);
    assert_eq!(added.len(), 1);
    assert_eq!(latest(&app_state, &added[0]).event_type, EventType::IngestAdded);

    app_state.ui.journal.filter = JournalFilter::Commands;
    let commands = journal_activities(&app_state);
    assert_eq!(commands.len(), 1);
    assert_eq!(latest(&app_state, &commands[0]).event_type, EventType::ControlApplied);

    app_state.ui.journal.filter = JournalFilter::Health;
    let health = journal_activities(&app_state);
    assert_eq!(health.len(), 1);
    assert_eq!(latest(&app_state, &health[0]).event_type, EventType::DataUnavailable);
}

#[test]
fn correlated_ingest_stages_form_one_activity() {
    let mut app_state = base_state();
    app_state.ui.journal.filter = JournalFilter::Queue;
    app_state.event_journal_state.entries = vec![
        EventJournalEntry {
            id: 10,
            ts_iso: "2026-03-15T14:26:27Z".to_string(),
            category: EventCategory::Ingest,
            event_type: EventType::IngestQueued,
            correlation_id: Some("activity-alpha".to_string()),
            message: name("Queued ingest item"),
            ..Default::default()
        },
        EventJournalEntry {
            id: 11,
            ts_iso: "2026-03-15T14:26:28Z".to_string(),
            category: EventCategory::Ingest,
            event_type: EventType::IngestAdded,
            correlation_id: Some("activity-alpha".to_string()),
            torrent_name: name("Sample Delta"),
            message: name("Added ingest item"),
            ..Default::default()
        },
    ];

    let activities = journal_activities(&app_state);

    assert_eq!(activities.len(), 1);
    assert_eq!(activities[0].entries.len(), 2);
    assert_eq!(first(&app_state, &activities[0]).id, 10);
    assert_eq!(latest(&app_state, &activities[0]).id, 11);
    assert_eq!(subject(&app_state, &activities[0]), "Sample Delta");
}

#[test]
fn queued_activity_without_metadata_uses_source_filename_as_subject() {
    let mut app_state = base_state();
    app_state.ui.journal.filter = JournalFilter::Queue;
    app_state.event_journal_state.entries = vec![EventJournalEntry {
        id: 12,
        category: EventCategory::Ingest,
        event_type: EventType::IngestQueued,
        source_path: path("/watch/pending-item.magnet"),
        correlation_id: Some("pending-source".to_string()),
        ..Default::default()
    }];

    let activities = journal_activities(&app_state);

    assert_eq!(activities.len(), 1);
    assert_eq!(subject(&app_state, &activities[0]), "pending-item.magnet");
}

#[test]
fn activity_without_name_or_source_uses_pending_metadata_label() {
    let mut app_state = base_state();
    app_state.ui.journal.filter = JournalFilter::Queue;
    app_state.event_journal_state.entries = vec![EventJournalEntry {
        id: 13,
        category: EventCategory::Ingest,
        event_type: EventType::IngestQueued,
        ..Default::default()
    }];

    let activities = journal_activities(&app_state);

    assert_eq!(activities.len(), 1);
    assert_eq!(subject(&app_state, &activities[0]), "Pending metadata");
}

#[test]
fn reused_correlation_starts_a_new_activity() {
    let mut app_state = base_state();
    app_state.ui.journal.filter = JournalFilter::Queue;
    app_state.event_journal_state.entries = [
        (20, EventType::IngestQueued),
        (21, EventType::IngestAdded),
        (22, EventType::IngestQueued),
        (23, EventType::IngestFailed),
    ]
    .into_iter()
    .map(|(id, event_type)| EventJournalEntry {
        id,
        category: EventCategory::Ingest,
        event_type,
        correlation_id: Some("reused-path".to_string()),
        ..Default::default()
    })
    .collect();

    let activities = journal_activities(&app_state);

    assert_eq!(activities.len(), 2);
    assert_eq!(activities[0].entries.len(), 2);
    assert_eq!(latest(&app_state, &activities[0]).id, 23);
    assert_eq!(activities[1].entries.len(), 2);
    assert_eq!(latest(&app_state, &activities[1]).id, 21);
}

#[test]
fn reused_correlation_terminal_pairs_with_newest_open_queue() {
    let mut app_state = base_state();
    app_state.ui.journal.filter = JournalFilter::Queue;
    app_state.event_journal_state.entries = [
        (24, EventType::IngestQueued),
        (25, EventType::IngestQueued),
        (26, EventType::IngestAdded),
    ]
    .into_iter()
    .map(|(id, event_type)| EventJournalEntry {
        id,
        category: EventCategory::Ingest,
        event_type,
        correlation_id: Some("reused-open-path".to_string()),
        ..Default::default()
    })
    .collect();

    let activities = journal_activities(&app_state);

    assert_eq!(activities.len(), 2);
    assert_eq!(first(&app_state, &activities[0]).id, 25);
    assert_eq!(latest(&app_state, &activities[0]).id, 26);
    assert_eq!(activities[1].entries.len(), 1);
    assert_eq!(latest(&app_state, &activities[1]).id, 24);
}

#[test]
fn identical_correlations_do_not_cross_host_or_scope_boundaries() {
    let mut app_state = base_state();
    app_state.ui.journal.filter = JournalFilter::Queue;
    app_state.event_journal_state.entries = vec![
        EventJournalEntry {
            id: 27,
            category: EventCategory::Ingest,
            event_type: EventType::IngestQueued,
            host_id: Some("host-alpha".to_string()),
            correlation_id: Some("shared-correlation".to_string()),
            ..Default::default()
        },
        EventJournalEntry {
            id: 28,
            category: EventCategory::Ingest,
            event_type: EventType::IngestQueued,
            host_id: Some("host-beta".to_string()),
            correlation_id: Some("shared-correlation".to_string()),
            ..Default::default()
        },
        EventJournalEntry {
            id: 29,
            scope: EventScope::Shared,
            category: EventCategory::Ingest,
            event_type: EventType::IngestAdded,
            host_id: Some("host-alpha".to_string()),
            correlation_id: Some("shared-correlation".to_string()),
            ..Default::default()
        },
        EventJournalEntry {
            id: 30,
            category: EventCategory::Ingest,
            event_type: EventType::IngestAdded,
            host_id: Some("host-beta".to_string()),
            correlation_id: Some("shared-correlation".to_string()),
            ..Default::default()
        },
    ];

    let activities = journal_activities(&app_state);

    assert_eq!(activities.len(), 3);
    assert_eq!(activities[0].entries.len(), 2);
    assert_eq!(first(&app_state, &activities[0]).host_id.as_deref(), Some("host-beta"));
    assert_eq!(latest(&app_state, &activities[0]).id, 30);
    assert!(activities[1..].iter().all(|activity| activity.entries.len() == 1));
}

#[test]
fn interleaved_correlations_pair_with_their_own_terminal_stage() {
    let mut app_state = base_state();
    app_state.ui.journal.filter = JournalFilter::Queue;
    app_state.event_journal_state.entries = vec![
        EventJournalEntry {
            id: 30,
            category: EventCategory::Ingest,
            event_type: EventType::IngestQueued,
            correlation_id: Some("activity-alpha".to_string()),
            ..Default::default()
        },
        EventJournalEntry {
            id: 31,
            category: EventCategory::Ingest,
            event_type: EventType::IngestQueued,
            correlation_id: Some("activity-beta".to_string()),
            ..Default::default()
        },
        EventJournalEntry {
            id: 32,
            category: EventCategory::Ingest,
            event_type: EventType::IngestAdded,
            correlation_id: Some("activity-alpha".to_string()),
            ..Default::default()
        },
        EventJournalEntry {
            id: 33,
            category: EventCategory::Ingest,
            event_type: EventType::IngestFailed,
            correlation_id: Some("activity-beta".to_string()),
            ..Default::default()
        },
    ];

    let activities = journal_activities(&app_state);

    assert_eq!(activities.len(), 2);
    assert_eq!(first(&app_state, &activities[0]).id, 31);
    assert_eq!(latest(&app_state, &activities[0]).id, 33);
    assert_eq!(first(&app_state, &activities[1]).id, 30);
    assert_eq!(latest(&app_state, &activities[1]).id, 32);
}

#[test]
fn navigation_clamps_to_grouped_activity_count() {
    let mut app_state = base_state();
    app_state.ui.journal.filter = JournalFilter::Queue;
    app_state.event_journal_state.entries = [
        (40, EventType::IngestQueued, Some("activity-alpha")),
        (41, EventType::IngestAdded, Some("activity-alpha")),
        (42, EventType::IngestAdded, None),
    ]
    .into_iter()
    .map(|(id, event_type, correlation_id)| EventJournalEntry {
        id,
        category: EventCategory::Ingest,
        event_type,
        correlation_id: correlation_id.map(str::to_string),
        ..Default::default()
    })
    .collect();

    for _ in 0..4 {
        handle_event(press(KeyCode::Down), &mut app_state);
    }

    assert_eq!(journal_activities(&app_state).len(), 2);
    assert_eq!(app_state.ui.journal.selected_index, 1);
}

#[test]
fn table_window_builds_only_the_visible_rows_around_selection() {
    assert_eq!(journal_table_window(100, 0, 6), (0, 5));
    assert_eq!(journal_table_window(100, 4, 6), (0, 5));
    assert_eq!(journal_table_window(100, 5, 6), (1, 6));
    assert_eq!(journal_table_window(100, 73, 6), (69, 74));
    assert_eq!(journal_table_window(3, 2, 6), (0, 3));
}

#[test]
fn detail_region_keeps_a_stable_height() {
    assert_eq!(journal_detail_height(30), 1);
    assert_eq!(journal_detail_height(8), 1);
    assert_eq!(journal_detail_height(5), 1);
    assert_eq!(journal_detail_height(4), 0);
}

#[test]
fn page_keys_move_by_the_visible_table_capacity() {
    let mut app_state = base_state();
    app_state.screen_area = Rect::new(0, 0, 120, 30);
    app_state.ui.journal.area = Rect::new(7, 1, 106, 28);
    app_state.event_journal_state.entries = (0..40)
        .map(|id| EventJournalEntry {
            id,
            category: EventCategory::Ingest,
            event_type: EventType::IngestAdded,
            torrent_name: name(&format!("Sample Item {id}")),
            ..Default::default()
        })
        .collect();
    let page_rows = journal_page_rows(&app_state);
    assert_eq!(page_rows, 21);

    handle_event(press(KeyCode::PageDown), &mut app_state);
    assert_eq!(app_state.ui.journal.selected_index, page_rows);

    handle_event(press(KeyCode::PageUp), &mut app_state);
    assert_eq!(app_state.ui.journal.selected_index, 0);
}

#[test]
fn grouped_activity_uses_one_line_with_latest_detail() {
    let mut app_state = base_state();
    app_state.ui.journal.filter = JournalFilter::Queue;
    app_state.ui.journal.selected_index = 99;
    app_state.event_journal_state.entries = vec![
        EventJournalEntry {
            id: 50,
            ts_iso: "2026-03-15T14:26:27Z".to_string(),
            category: EventCategory::Ingest,
            event_type: EventType::IngestQueued,
            correlation_id: Some("activity-render".to_string()),
            source_path: path("/watch/sample-delta.magnet"),
            message: name("Queued ingest item"),
            ..Default::default()
        },
        EventJournalEntry {
            id: 51,
            ts_iso: "2026-03-15T14:26:28Z".to_string(),
            category: EventCategory::Ingest,
            event_type: EventType::IngestAdded,
            correlation_id: Some("activity-render".to_string()),
            torrent_name: name("Sample Delta"),
            source_path: path("/watch/sample-delta.magnet"),
            message: name("Added ingest item"),
            ..Default::default()
        },
    ];

    let activities = journal_activities(&app_state);
    let entries = &app_state.event_journal_state.entries;
    assert_eq!(journal_count_label(activities.len(), entries.len()), "1 activity · 2 records");
    assert_eq!(subject(&app_state, &activities[0]), "Sample Delta");
    let line = activity_detail_line(Some(&activities[0]), &app_state, 102).expect("line");
    assert!(line.timestamp.starts_with("Mar 1"));
    assert_eq!(line.message, "Added ingest item");
    assert_eq!(line.status.len(), 2);
    assert!(line.source.expect("source").starts_with("/watch/sample"));
}

#[test]
fn narrow_render_keeps_latest_detail_on_one_line() {
    let mut app_state = base_state();
    app_state.ui.journal.filter = JournalFilter::Queue;
    app_state.event_journal_state.entries = vec![
        EventJournalEntry {
            id: 52,
            ts_iso: "2026-03-15T14:26:27Z".to_string(),
            category: EventCategory::Ingest,
            event_type: EventType::IngestQueued,
            correlation_id: Some("activity-narrow".to_string()),
            source_path: path("/watch/sample-epsilon.magnet"),
            message: name(&"Queue detail ".repeat(20)),
            ..Default::default()
        },
        EventJournalEntry {
            id: 53,
            ts_iso: "2026-03-15T14:26:28Z".to_string(),
            category: EventCategory::Ingest,
            event_type: EventType::IngestAdded,
            correlation_id: Some("activity-narrow".to_string()),
            torrent_name: name("Sample Epsilon"),
            source_path: path("/watch/sample-epsilon.magnet"),
            message: name(&"Result detail ".repeat(20)),
            ..Default::default()
        },
    ];

    let activities = journal_activities(&app_state);
    let line = activity_detail_line(Some(&activities[0]), &app_state, 64).expect("line");
    assert!(line.message.contains("Result detail"));
    assert!(!line.message.contains("Queue detail"));
    assert_eq!(line.source, None);
    // "● Queued → ● Added" and two spaces on each side of the time go first.
    assert_eq!(line.message.chars().count(), 64 - 18 - 22);
    assert!(line.message.ends_with("..."));
}

#[test]
fn compact_path_label_keeps_tail_components() {
    let label = compact_path_label(&FilePath::new("/alpha/beta/watch_files"), 2);
    assert_eq!(label, ".../beta/watch_files");
}

#[test]
fn pretty_timestamp_formats_rfc3339_values() {
    let label = pretty_timestamp("2026-03-15T14:26:28Z");
    assert!(label.contains("Mar"));
}

#[test]
fn time_since_label_uses_two_live_time_units() {
    // 2026-03-15T15:00:00Z
    let now = Moment { secs: 1_773_586_800, nanos: 0 };

    assert_eq!(time_since_label("2026-03-15T15:00:00Z", now), "now");
    assert_eq!(time_since_label("2026-03-15T14:59:40Z", now), "20s ago");
    assert_eq!(time_since_label("2026-03-15T14:29:40Z", now), "30mins 20s ago");
    assert_eq!(time_since_label("2026-03-15T12:55:00Z", now), "2h 5mins ago");
    assert_eq!(time_since_label("invalid", now), "-");
}

#[test]
fn anonymized_journal_hides_torrent_names_and_paths() {
    let entry = EventJournalEntry {
        torrent_name: name("Sample Alpha"),
        source_path: path("/alpha/beta/watch_files/sample.torrent"),
        message: name("Added Sample Alpha from /alpha/beta/watch_files/sample.torrent"),
        ..Default::default()
    };

    assert_eq!(torrent_label(&entry, true), "Torrent");
    assert_eq!(source_label(&entry, true), "/path/to/source");

    let details = detail_text(Some(&entry), true);
    assert!(!details.contains("Sample Alpha"));
    assert!(!details.contains("/alpha/beta/watch_files/sample.torrent"));
    assert!(details.contains("Torrent"));
    assert!(details.contains("/path/to/source"));
}

#[test]
fn command_filter_uses_action_label_and_reduced_columns() {
    let entry = EventJournalEntry {
        details: EventDetails::Control { action: "pause".to_string() },
        ..Default::default()
    };

    assert_eq!(command_action_label(&entry), "pause");
    assert_eq!(columns_for_filter(JournalFilter::Commands).len(), 4);
    assert_eq!(
        column_header(
            columns_for_filter(JournalFilter::Commands)[1],
            JournalFilter::Commands
        ),
        "Time Since"
    );
    assert_eq!(
        column_header(
            columns_for_filter(JournalFilter::Commands)[2],
            JournalFilter::Commands
        ),
        "Status"
    );
    assert_eq!(
        column_header(
            columns_for_filter(JournalFilter::Commands)[3],
            JournalFilter::Commands
        ),
        "Action"
    );
    assert_eq!(command_action_label(&entry), "pause");
}

#[test]
fn every_filter_uses_the_same_four_core_columns() {
    for filter in [
        JournalFilter::All,
        JournalFilter::Queue,
        JournalFilter::Commands,
        JournalFilter::Health,
    ] {
        assert_eq!(columns_for_filter(filter).len(), 4);
    }
}

#[test]
fn shift_y_replays_selected_magnet_source() {
    let mut app_state = base_state();
    app_state.ui.journal.filter = JournalFilter::Queue;
    app_state.ui.journal.selected_index = 99;
    let replay_path = "/tmp/superseedr-journal-replay.magnet";
    app_state.event_journal_state.entries.insert(
        0,
        EventJournalEntry {
            id: 0,
            category: EventCategory::Ingest,
            event_type: EventType::IngestQueued,
            correlation_id: Some("activity-replay".to_string()),
            source_path: path(replay_path),
            ..Default::default()
        },
    );
    app_state.event_journal_state.entries[1].correlation_id = Some("activity-replay".to_string());
    app_state.event_journal_state.entries[1].source_path = path(replay_path);

    let request = handle_event(
        TerminalEvent::Key(KeyEvent::new(KeyCode::Char('Y'), KeyModifiers::shift())),
        &mut app_state,
    )
    .expect("replay request");

    assert_eq!(request.source_path, replay_path);
    assert_eq!(request.command, ReplayCommand::AddMagnetFromFile(replay_path.to_string()));
}

#[test]
fn shift_y_reports_missing_replay_source() {
    let mut app_state = base_state();

    let request = handle_event(
        TerminalEvent::Key(KeyEvent::new(KeyCode::Char('Y'), KeyModifiers::shift())),
        &mut app_state,
    );

    assert!(request.is_none());
    assert_eq!(
        app_state.ui.journal.status_message.as_deref(),
        Some("Selected entry has no replayable source file")
    );
}

#[test]
fn a_replay_ends_in_a_message() {
    let mut app_state = base_state();
    app_state.ui.journal.filter = JournalFilter::Queue;
    app_state.event_journal_state.entries[0].source_path = path("/a/b/watch/item.Torrent");
    let Ok(request) = replay_selected_entry(&app_state) else {
        panic!("expected a request");
    };
    assert_eq!(
        request.command,
        ReplayCommand::AddTorrentFromFile("/a/b/watch/item.Torrent".to_string())
    );
    finish_replay(&mut app_state, &request, ReplayOutcome::Sent);
    assert_eq!(
        app_state.ui.journal.status_message.as_deref(),
        Some("Replayed .../watch/item.Torrent")
    );
    finish_replay(&mut app_state, &request, ReplayOutcome::Missing);
    assert_eq!(
        app_state.ui.journal.status_message.as_deref(),
        Some("Replay source file is no longer available")
    );
    finish_replay(&mut app_state, &request, ReplayOutcome::Busy);
    assert_eq!(
        app_state.ui.journal.status_message.as_deref(),
        Some("Replay request queue is busy")
    );
}

#[test]
fn a_replay_needs_an_activity_and_a_known_kind_of_file() {
    let mut app_state = base_state();
    app_state.event_journal_state.entries[2].source_path = path("/watch/notes.txt");
    assert_eq!(
        replay_selected_entry(&app_state).err(),
        Some("Selected entry does not point to a replayable source file")
    );
    app_state.event_journal_state.entries.clear();
    assert_eq!(replay_selected_entry(&app_state).err(), Some("No journal entry selected"));
}

#[test]
fn files_are_replayed_by_their_extension() {
    assert_eq!(
        replay_command_for_path(&FilePath::new("/w/x.PATH")),
        Some(ReplayCommand::AddTorrentFromPathFile("/w/x.PATH".to_string()))
    );
    assert_eq!(replay_command_for_path(&FilePath::new("/w/.torrent")), None);
    assert_eq!(replay_command_for_path(&FilePath::new("/w/torrent")), None);
    assert_eq!(replay_command_for_path(&FilePath::new("/w/x.torrent/..")), None);
    assert!(replay_command_for_path(&FilePath::new("/w/x.torrent/.")).is_some());
}

#[test]
fn paths_are_taken_apart_at_their_slashes() {
    assert_eq!(file_name(&FilePath::new("/a//b/")), Some("b".to_string()));
    assert_eq!(file_name(&FilePath::new("/")), None);
    assert_eq!(file_name(&FilePath::new("a/..")), None);
    assert_eq!(file_name(&FilePath::new("./a/.")), Some("a".to_string()));
    assert_eq!(extension(&FilePath::new("/a.b/c.d.e")), Some("e".to_string()));
    assert_eq!(extension(&FilePath::new("/a.b/c")), None);
    assert_eq!(extension(&FilePath::new("x.")), Some(String::new()));
    assert_eq!(compact_path_label(&FilePath::new("/"), 1), "/");
    assert_eq!(compact_path_label(&FilePath::new("a/b"), 2), "a/b");
    assert_eq!(compact_path_label(&FilePath::new("/x/../a/./b"), 1), ".../b");
    assert!(eq_ignore_ascii_case("ToRReNT", "torrent"));
    assert!(!eq_ignore_ascii_case("torrentz", "torrent"));
    assert!(!eq_ignore_ascii_case("É", "é"));
}

#[test]
fn replacing_goes_from_left_to_right() {
    assert_eq!(replace_text("aaa", "aa", "b"), "ba");
    assert_eq!(replace_text("abc", "", "-"), "-a-b-c-");
    assert_eq!(replace_text("", "x", "y"), "");
    assert_eq!(replace_text("one two one", "one", "1"), "1 two 1");
}

#[test]
fn every_event_is_in_one_activity() {
    let mut app_state = base_state();
    app_state.event_journal_state.entries = (0..12)
        .map(|id| EventJournalEntry {
            id,
            category: if id % 3 == 0 { EventCategory::Control } else { EventCategory::Ingest },
            event_type: match id % 4 {
                0 => EventType::IngestQueued,
                1 => EventType::IngestAdded,
                2 => EventType::IngestFailed,
                _ => EventType::ControlQueued,
            },
            correlation_id: if id % 5 == 0 { None } else { Some("same".to_string()) },
            ..Default::default()
        })
        .collect();
    let activities = journal_activities(&app_state);
    let mut positions = activities.iter().flat_map(|a| a.entries.clone()).collect::<Vec<_>>();
    positions.sort();
    assert_eq!(positions, (0..12).collect::<Vec<_>>());
    for pair in activities.windows(2) {
        assert!(pair[0].latest() > pair[1].latest());
    }
}

#[test]
fn phases_go_by_category_and_kind() {
    let mut event = EventJournalEntry {
        category: EventCategory::Ingest,
        event_type: EventType::IngestDuplicate,
        ..Default::default()
    };
    assert_eq!(activity_phase(&event), ActivityPhase::Terminal);
    assert!(entry_matches_filter(&event, JournalFilter::Queue));
    assert!(!entry_matches_filter(&event, JournalFilter::Health));
    event.category = EventCategory::Control;
    assert_eq!(activity_phase(&event), ActivityPhase::Standalone);
    event.event_type = EventType::ControlQueued;
    assert_eq!(activity_phase(&event), ActivityPhase::Queued);
    assert_eq!(event_type_label(&event), "Queued");
    assert_eq!(event_status_color(&event), EventTone::Waiting);
}

#[test]
fn a_search_looks_through_all_texts_of_an_activity() {
    let mut app_state = base_state();
    app_state.event_journal_state.entries[0].host_id = Some("host-one".to_string());
    app_state.event_journal_state.entries[0].info_hash_hex = Some("abcdef".to_string());
    app_state.event_journal_state.entries[0].source_watch_folder = path("/data/watch");
    let activities = journal_activities(&app_state);
    assert_eq!(
        activity_search_haystack(&app_state.event_journal_state.entries, &activities[2]),
        "Added Added Sample Alpha .../watch No details recorded. host-one abcdef"
    );
    for (query, mode, expected) in [
        ("HOST-.NE", SearchMode::Regex, 1),
        ("[", SearchMode::Regex, 0),
        ("smplgm", SearchMode::Fuzzy, 1),
        ("  ", SearchMode::Regex, 3),
    ] {
        app_state.ui.journal.search_query = query.to_string();
        app_state.ui.journal.search_mode = mode;
        assert_eq!(journal_activities(&app_state).len(), expected, "{query}");
    }
}

#[test]
fn the_search_takes_the_keys_while_it_is_on_view() {
    let key = |code| KeyEvent::new(code, KeyModifiers::none());
    assert_eq!(
        map_key_to_journal_action(key(KeyCode::Char('q')), true),
        Some(JournalAction::SearchInsert('q'))
    );
    assert_eq!(
        map_key_to_journal_action(key(KeyCode::Char('q')), false),
        Some(JournalAction::ToNormal)
    );
    assert_eq!(
        map_key_to_journal_action(
            KeyEvent::new(KeyCode::Char('u'), KeyModifiers::control()),
            true
        ),
        Some(JournalAction::SearchClear)
    );
    assert_eq!(
        map_key_to_journal_action(KeyEvent::new(KeyCode::Char('x'), KeyModifiers::alt()), true),
        None
    );
    let release =
        KeyEvent::new_with_kind(KeyCode::Esc, KeyModifiers::none(), KeyEventKind::Release);
    assert_eq!(map_key_to_journal_action(release, false), None);
}

#[test]
fn leaving_the_journal_goes_back_to_the_dashboard() {
    let mut app_state = base_state();
    handle_event(press(KeyCode::Esc), &mut app_state);
    assert_eq!(app_state.mode, AppMode::Normal);
    app_state.ui.journal.status_message = Some("kept".to_string());
    handle_event(press(KeyCode::Tab), &mut app_state);
    assert_eq!(app_state.ui.journal.status_message.as_deref(), Some("kept"));
    assert_eq!(app_state.ui.journal.filter, JournalFilter::All);
}

#[test]
fn the_panel_keeps_a_line_above_and_below() {
    let layout = calculate_journal_layout(Rect::new(2, 3, 60, 20), true);
    assert_eq!(layout.search, Some(Rect::new(2, 3, 60, 3)));
    assert_eq!(layout.header, Rect::new(2, 6, 60, 1));
    assert_eq!(layout.panel, Rect::new(2, 7, 60, 15));
    assert_eq!(layout.footer, Rect::new(2, 22, 60, 1));
    assert_eq!(layout.table, Rect::new(5, 8, 54, 11));
    assert_eq!(layout.detail, Some(Rect::new(5, 20, 54, 1)));
    let small = calculate_journal_layout(Rect::new(0, 0, 60, 6), true);
    assert_eq!(small.search, None);
    assert_eq!(small.table.height, 2);
    assert_eq!(small.detail, None);
}

#[test]
fn moments_are_counted_to_the_second() {
    let now = Moment { secs: 100_000, nanos: 500_000_000 };
    assert_eq!(time_since_moment(Some((99_999, 600_000_000)), now), "now");
    assert_eq!(time_since_moment(Some((99_999, 500_000_000)), now), "1s ago");
    assert_eq!(time_since_moment(Some((99_940, 0)), now), "1min 0s ago");
    assert_eq!(time_since_moment(Some((96_340, 0)), now), "1h 1min ago");
    assert_eq!(time_since_moment(Some((0, 0)), now), "1d 3h ago");
    assert_eq!(time_since_moment(Some((200_000, 0)), now), "now");
    assert_eq!(time_since_moment(None, now), "-");
    // A leap second counts between different times of the day.
    assert_eq!(time_since_moment(Some((59, 1_000_000_000)), Moment { secs: 62, nanos: 0 }), "3s ago");
}

#[test]
fn what_is_no_moment_is_shown_as_it_is() {
    assert_eq!(pretty_timestamp("yesterday"), "yesterday");
    assert_eq!(detailed_timestamp(""), "");
    assert_ne!(detailed_timestamp("2026-03-15T14:26:28Z"), "2026-03-15T14:26:28Z");
}

#[test]
fn cells_tell_time_and_subject() {
    let mut app_state = base_state();
    app_state.event_journal_state.entries[2].ts_iso = "1970-01-01T00:00:10Z".to_string();
    let activities = journal_activities(&app_state);
    let now = Moment { secs: 15, nanos: 0 };
    assert_eq!(column_cell(JournalColumn::TimeSince, &activities[0], &app_state, now), "5s ago");
    assert_eq!(
        column_cell(JournalColumn::Subject, &activities[0], &app_state, now),
        "Sample Gamma"
    );
    app_state.anonymize_torrent_names = true;
    assert_eq!(column_cell(JournalColumn::Subject, &activities[0], &app_state, now), "Torrent");
    assert_eq!(
        column_constraint(JournalColumn::Status, JournalFilter::All),
        Constraint::Length(22)
    );
    let parts = activity_status_parts(&app_state.event_journal_state.entries, &activities[0]);
    assert_eq!(parts[0].label, "Missing");
    assert_eq!(parts[0].tone, EventTone::Error);
    assert!(parts[0].bold);
}

#[test]
fn the_header_counts_activities_and_events() {
    assert_eq!(journal_count_label(1, 1), "1 activity");
    assert_eq!(journal_count_label(0, 0), "0 activities");
    assert_eq!(journal_count_label(3, 5), "3 activities · 5 records");
}

#[test]
fn sources_prefer_the_path_of_the_event() {
    let mut event = EventJournalEntry {
        source_watch_folder: path("/watch/folder"),
        ..Default::default()
    };
    assert_eq!(preferred_source_text(&event), Some("/watch/folder".to_string()));
    event.source_path = path("/watch/folder/file");
    assert_eq!(preferred_source_text(&event), Some("/watch/folder/file".to_string()));
    assert_eq!(source_label(&event, false), ".../file");
    assert_eq!(source_label(&EventJournalEntry::default(), false), "-");
    assert_eq!(detail_text(None, false), "No journal entries yet.");
}

#[test]
fn the_journal_footer_follows_the_search() {
    let mut app_state = base_state();
    assert_eq!(journal_footer(&app_state)[4].key, "Shift+Y");
    app_state.ui.journal.is_searching = true;
    assert_eq!(journal_footer(&app_state)[2].action, "keep");
}

#[test]
fn moments_go_by_the_offset_of_the_place() {
    let moment = "2026-03-15T14:26:28Z";
    assert_eq!(pretty_timestamp_at(moment, 0), "Mar 15 14:26");
    assert_eq!(pretty_timestamp_at(moment, 5_400), "Mar 15 15:56");
    assert_eq!(pretty_timestamp_at(moment, -54_000), "Mar 14 23:26");
    assert_eq!(detailed_timestamp_at(moment, 0), "Mar 15 02:26:28 PM");
    assert_eq!(detailed_timestamp_at(moment, -43_200), "Mar 15 02:26:28 AM");
    assert_eq!(detailed_timestamp_at("2016-12-31T23:59:60Z", 0), "Dec 31 11:59:60 PM");
    assert_eq!(pretty_timestamp_at("0000-01-01T00:00:00+23:59", 0), "Dec 31 00:01");
    assert_eq!(pretty_timestamp_at("9999-12-31T23:59:59-23:59", 0), "Jan 01 23:58");
    assert_eq!(pretty_timestamp_at("soon", 7), "soon");
}

#[test]
fn the_detail_line_shows_when_the_newest_event_happened() {
    let mut app_state = base_state();
    app_state.event_journal_state.entries[2].ts_iso = "2026-03-15T14:26:28Z".to_string();
    let activities = journal_activities(&app_state);
    let line = activity_detail_line(Some(&activities[0]), &app_state, 90).expect("line");
    assert_eq!(line.timestamp, detailed_timestamp("2026-03-15T14:26:28Z"));
    let fixed = activity_detail_line_at(
        &app_state.event_journal_state.entries,
        &activities[0],
        false,
        "Mar 15 02:26:28 PM".to_string(),
        90,
    );
    assert_eq!(fixed.timestamp, "Mar 15 02:26:28 PM");
    assert_eq!(fixed.message, line.message);
    assert_eq!(
        activity_detail_line(None, &app_state, 90).err(),
        Some("No journal activities yet.")
    );
}

#[test]
fn texts_are_made_fit_for_a_terminal_last() {
    assert_eq!(sanitize_text("a\u{1b}b\n\u{7f}\u{85}c é"), "abc é");
    let event = EventJournalEntry {
        torrent_name: name("Sam\tple"),
        message: name("Added Sam\tple and Sample\u{7}"),
        source_path: path("/watch/bell\u{7}/item"),
        ..Default::default()
    };
    assert_eq!(torrent_label(&event, false), "Sample");
    assert_eq!(detail_text(Some(&event), false), "Added Sample and Sample");
    assert_eq!(detail_text(Some(&event), true), "Added Torrent and Sample");
    assert_eq!(preferred_source_text(&event), name("/watch/bell\u{7}/item"));
    assert_eq!(compact_path_label(&FilePath::new("/watch/bell\u{7}/item"), 2), ".../bell/item");
}

#[test]
fn steps_are_read_as_the_system_reads_them() {
    let name = |text: &str| PathStep::Name(text.to_string());
    assert_eq!(
        FilePath::new("/a//b/./c/../d").steps,
        vec![PathStep::Root, name("a"), name("b"), name("c"), PathStep::Parent, name("d")]
    );
    assert_eq!(FilePath::new("./a/.").steps, vec![PathStep::Here, name("a")]);
    assert_eq!(FilePath::new("").steps, vec![]);
    assert_eq!(FilePath::new("../x").steps, vec![PathStep::Parent, name("x")]);
}

#[test]
fn a_prefix_counts_as_a_name_in_the_label_alone() {
    let text = "C:\\a\\b.torrent";
    let path = FilePath {
        text: text.to_string(),
        steps: vec![
            PathStep::Prefix("C:".to_string()),
            PathStep::Root,
            PathStep::Name("a".to_string()),
            PathStep::Name("b.torrent".to_string()),
        ],
    };
    assert_eq!(compact_path_label(&path, 3), "C:/a/b.torrent");
    assert_eq!(compact_path_label(&path, 2), ".../a/b.torrent");
    assert_eq!(file_name(&path), Some("b.torrent".to_string()));
    assert_eq!(
        replay_command_for_path(&path),
        Some(ReplayCommand::AddTorrentFromFile(text.to_string()))
    );
    let drive =
        FilePath { text: "C:".to_string(), steps: vec![PathStep::Prefix("C:".to_string())] };
    assert_eq!(file_name(&drive), None);
    assert_eq!(compact_path_label(&drive, 1), "C:");
}
