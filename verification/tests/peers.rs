//! The peer management screen.
use std::collections::BTreeSet;
use superseedr::app::{
    AppMode, AppState, PeerManagementFilter, PeerManagerView, PeerPolicy,
};
use superseedr::geometry::{Constraint, Rect};
use superseedr::keys::{KeyCode, KeyEvent, KeyEventKind, KeyModifiers, TerminalEvent};
use superseedr::order::{Comparison, SortDirection};
use superseedr::peer_manager::{
    compare_ips, format_ip, normalize_peer_ip, IpAddr, PeerManagerEndpointView,
    PeerManagerTrackedPeer, PeerRestriction, PeerRestrictionReason, RestrictedPeer,
};
use superseedr::search::SearchMode;
use superseedr::tui::screens::peers::columns::{
    compute_visible_peer_management_columns, peer_columns, PeerColumnId, CONNECTS_COLUMN_WIDTH,
    DISCONNECTS_COLUMN_WIDTH, TORRENTS_COLUMN_WIDTH, TRANSFER_COLUMN_WIDTH,
};
use superseedr::tui::screens::peers::details::{
    matching_detail_torrents, peer_detail_line_count, peer_detail_lines, peer_details_max_scroll,
    pinned_peer_detail_row, restriction_reason_detail, tracked_peer_client_label,
    detail_line_text, tracked_peer_detail_lines, DetailLine, QuantityTexts,
};
use superseedr::tui::screens::peers::evidence::{
    compare_evidence, compare_evidence_ratio, EvidenceKind, PeerEvidence, RoundedEvidence,
    EVIDENCE_CONTENT_WIDTH,
};
use superseedr::tui::screens::peers::labels::{
    compact_duration, display_endpoint, display_ip, display_torrent_name, fits_column,
    format_elapsed, format_remaining, short_info_hash, stable_mask_id, LAST_SEEN_COLUMN_WIDTH,
    NANOS_PER_SECOND, RESTRICTION_REMAINING_WIDTH, STATE_COLUMN_WIDTH,
};
use superseedr::tui::screens::peers::rows::{
    peer_torrents_label, preferred_client_label, PeerRowModel,
};
use superseedr::tui::screens::peers::screen::{
    empty_table_message, peer_details_window, peer_footer, peer_row_tone, peer_summary_message,
    peer_table_header, peer_table_row, PeerRowTexts, PeerRowTone,
};
use superseedr::tui::screens::peers::table::{
    build_peer_rows_at, peer_search_text, recompute_peer_management_derived,
    refresh_peer_management_expiries,
};
use superseedr::tui::screens::peers::{
    handle_event, map_key_event_to_peer_management_action, map_key_to_peer_management_action,
    peer_search_error, peer_summary_counts_at, peer_table_viewport,
    reduce_peer_management_action, reduce_peer_management_action_at, selected_peer_index,
    PeerManagementAction,
};

fn secs(seconds: u64) -> u128 {
    u128::from(seconds) * NANOS_PER_SECOND
}

fn test_now() -> u128 {
    secs(10_000)
}

fn ip(text: &str) -> IpAddr {
    let (text, mapped) = match text.strip_prefix("::ffff:") {
        Some(rest) => (rest, true),
        None => (text, false),
    };
    let number = text
        .split('.')
        .map(|part| part.parse::<u32>().expect("a part of an address"))
        .fold(0u32, |number, part| number * 256 + part);
    if mapped {
        IpAddr::V6(0xffff_0000_0000 + u128::from(number))
    } else {
        IpAddr::V4(number)
    }
}

fn scaled(value: f64, unit: &str) -> String {
    if value < 10.0 {
        format!("{value:.1}{unit}")
    } else {
        format!("{value:.0}{unit}")
    }
}

fn compact_count(value: u64) -> String {
    for (threshold, unit) in [
        (1_000_000_000_000_000_000, "E"),
        (1_000_000_000_000_000, "P"),
        (1_000_000_000_000, "T"),
        (1_000_000_000, "G"),
        (1_000_000, "M"),
        (1_000, "K"),
    ] {
        if value >= threshold {
            return scaled(value as f64 / threshold as f64, unit);
        }
    }
    value.to_string()
}

fn compact_transfer_bytes(bytes: u64) -> String {
    for (threshold, unit) in [
        (1u64 << 60, "EB"),
        (1 << 50, "PB"),
        (1 << 40, "TB"),
        (1 << 30, "GB"),
        (1 << 20, "MB"),
        (1 << 10, "KB"),
    ] {
        if bytes >= threshold {
            return format!("{:.2} {unit}", bytes as f64 / threshold as f64);
        }
    }
    format!("{bytes} B")
}

fn compact_magnitude(value: f64) -> String {
    for (threshold, unit) in
        [(1e24, "Y"), (1e21, "Z"), (1e18, "E"), (1e15, "P"), (1e12, "T"), (1e9, "G"), (1e6, "M"), (1e3, "K")]
    {
        if value >= threshold {
            return scaled(value / threshold, unit);
        }
    }
    format!("{value:.0}")
}

fn compact_label(evidence: &PeerEvidence) -> String {
    let percent = if evidence.threshold == 0 {
        0.0
    } else {
        evidence.observed as f64 * 100.0 / evidence.threshold as f64
    };
    evidence.compact_label(&RoundedEvidence {
        percent: format!("{percent:.0}"),
        compact_percent: compact_magnitude(percent),
        compact_observed: compact_count(evidence.observed),
        compact_threshold: compact_count(evidence.threshold),
    })
}

fn endpoint(address: &str) -> PeerManagerEndpointView {
    PeerManagerEndpointView {
        address: address.to_string(),
        shown_address: address.to_string(),
        total_downloaded: 10,
        total_uploaded: 20,
    }
}

fn tracked_peer(address: &str, name: &str, hash_seed: u8) -> PeerManagerTrackedPeer {
    PeerManagerTrackedPeer {
        torrent_info_hash: vec![hash_seed; 20],
        torrent_name: name.to_string(),
        shown_name: name.to_string(),
        masked_name: name.chars().map(|c| if c == ' ' { ' ' } else { 'x' }).collect(),
        ip: ip(address),
        is_active: false,
        endpoints: Vec::new(),
        downloaded_evidence_bytes: 0,
        uploaded_evidence_bytes: 0,
        total_downloaded_bytes: 0,
        total_uploaded_bytes: 0,
        connection_count: 0,
        disconnect_count: 0,
        transfer_threshold_bytes: 100,
        reconnect_count: 0,
        reconnect_limit: 10,
        reconnect_window_secs: 10,
        last_seen: Some(test_now() - secs(30)),
        clients: Vec::new(),
    }
}

fn state_with_peers(peers: Vec<PeerManagerTrackedPeer>) -> AppState {
    let mut state = AppState { mode: AppMode::PeerManagement, ..Default::default() };
    state.peer_manager_view = PeerManagerView {
        registered_torrents: peers
            .iter()
            .map(|peer| peer.torrent_info_hash.clone())
            .collect::<BTreeSet<_>>()
            .len(),
        tracked_peers: peers,
    };
    recompute_peer_management_derived(&mut state, test_now());
    state
}

fn restriction(blocked_until: u128, reason: PeerRestrictionReason) -> PeerRestriction {
    PeerRestriction {
        detected_at: test_now() - secs(60),
        blocked_until,
        torrent_info_hash: None,
        reason,
    }
}

fn restrict(state: &mut AppState, restrictions: Vec<(IpAddr, PeerRestriction)>) {
    state.peer_policy = PeerPolicy {
        restrictions: restrictions
            .into_iter()
            .map(|(ip, restriction)| RestrictedPeer { ip, restriction })
            .collect(),
    };
}

fn selected_ip(state: &AppState, rows: &[PeerRowModel]) -> Option<IpAddr> {
    selected_peer_index(state, rows.len()).map(|index| rows[index].ip)
}

fn column_index(id: PeerColumnId) -> usize {
    peer_columns().iter().position(|column| column.id == id).expect("column")
}

/// How often the rows were worked out since the last call.
fn take_peer_derived_recompute_count(state: &mut AppState) -> u64 {
    let count = state.peer_management_derived.recomputed;
    state.peer_management_derived.recomputed = 0;
    count
}

/// The words of a line, with plain numbers for its quantities.
fn line_text(line: &DetailLine) -> String {
    let (first, second) = match line {
        DetailLine::Upload { observed, threshold }
        | DetailLine::Download { observed, threshold } => (*observed, *threshold),
        DetailLine::Endpoint { downloaded, uploaded, .. } => (*downloaded, *uploaded),
        _ => (0, 0),
    };
    let parts = QuantityTexts {
        first: first.to_string(),
        second: second.to_string(),
        percent: (first * 100 / second.max(1)).to_string(),
    };
    detail_line_text(line, &parts)
}

#[test]
fn peer_table_viewport_builds_only_rows_that_can_be_rendered() {
    assert_eq!(peer_table_viewport(0, None, 14), (0, 0));
    assert_eq!(peer_table_viewport(5, Some(4), 14), (0, 5));
    assert_eq!(peer_table_viewport(100, Some(0), 14), (0, 11));
    assert_eq!(peer_table_viewport(100, Some(10), 14), (0, 11));
    assert_eq!(peer_table_viewport(100, Some(11), 14), (1, 12));
    assert_eq!(peer_table_viewport(100, Some(99), 14), (89, 100));
}

#[test]
fn repeat_events_are_limited_to_navigation_and_text_editing() {
    let mut state = state_with_peers(vec![tracked_peer("192.0.2.31", "Amber Field Notes", 31)]);

    for code in [
        KeyCode::Char('s'),
        KeyCode::Tab,
        KeyCode::BackTab,
        KeyCode::Char('/'),
        KeyCode::Char('x'),
        KeyCode::Enter,
        KeyCode::Esc,
    ] {
        let repeat = KeyEvent::new_with_kind(code, KeyModifiers::none(), KeyEventKind::Repeat);
        assert_eq!(
            map_key_event_to_peer_management_action(repeat, &state),
            None,
            "repeat should be ignored for {code:?}"
        );
    }

    let navigation_repeat =
        KeyEvent::new_with_kind(KeyCode::Down, KeyModifiers::none(), KeyEventKind::Repeat);
    assert_eq!(
        map_key_event_to_peer_management_action(navigation_repeat, &state),
        Some(PeerManagementAction::MoveDown)
    );

    reduce_peer_management_action(&mut state, PeerManagementAction::StartSearch);
    let text_repeat =
        KeyEvent::new_with_kind(KeyCode::Char('a'), KeyModifiers::none(), KeyEventKind::Repeat);
    assert_eq!(
        map_key_event_to_peer_management_action(text_repeat, &state),
        Some(PeerManagementAction::SearchInsert('a'))
    );

    let slash_repeat =
        KeyEvent::new_with_kind(KeyCode::Char('/'), KeyModifiers::none(), KeyEventKind::Repeat);
    assert_eq!(map_key_event_to_peer_management_action(slash_repeat, &state), None);
}

#[test]
fn normalized_ip_rows_keep_per_torrent_evidence_separate() {
    let mut first = tracked_peer("192.0.2.10", "Quartz Archive", 1);
    first.uploaded_evidence_bytes = 60;
    first.connection_count = 2;
    first.disconnect_count = 1;
    first.total_downloaded_bytes = 1_024;
    first.total_uploaded_bytes = 2_048;
    let mut second = tracked_peer("::ffff:192.0.2.10", "Cinder Atlas", 2);
    second.downloaded_evidence_bytes = 55;
    second.connection_count = 3;
    second.disconnect_count = 2;
    second.total_downloaded_bytes = 4_096;
    second.total_uploaded_bytes = 8_192;
    let state = state_with_peers(vec![first, second]);

    let rows = build_peer_rows_at(&state, test_now());

    assert_eq!(rows.len(), 1);
    assert_eq!(rows[0].tracked_indices.len(), 2);
    assert_eq!(rows[0].strongest_evidence().observed, 60);
    assert_eq!(rows[0].strongest_evidence().threshold, 100);
    assert_eq!(compact_label(&rows[0].strongest_evidence()), "UL 60%");
    assert_eq!(rows[0].connection_count, 5);
    assert_eq!(rows[0].disconnect_count, 3);
    assert_eq!(rows[0].total_downloaded_bytes, 5_120);
    assert_eq!(rows[0].total_uploaded_bytes, 10_240);
}

#[test]
fn policy_only_rows_include_only_live_restrictions() {
    let live_ip = ip("198.51.100.20");
    let expired_ip = ip("203.0.113.30");
    let mut state = state_with_peers(Vec::new());
    restrict(
        &mut state,
        vec![
            (live_ip, restriction(test_now() + secs(300), PeerRestrictionReason::Manual)),
            (expired_ip, restriction(test_now(), PeerRestrictionReason::Manual)),
        ],
    );

    let rows = build_peer_rows_at(&state, test_now());

    assert_eq!(rows.len(), 1);
    assert_eq!(rows[0].ip, live_ip);
    assert!(rows[0].tracked_indices.is_empty());
    assert!(rows[0].is_restricted());
}

#[test]
fn restriction_reason_preserves_trigger_after_counters_reset() {
    let peer = tracked_peer("192.0.2.44", "Mica Field Notes", 3);
    let mut state = state_with_peers(vec![peer]);
    restrict(
        &mut state,
        vec![(
            ip("192.0.2.44"),
            restriction(
                test_now() + secs(600),
                PeerRestrictionReason::ExcessiveDownload {
                    downloaded_bytes: 125,
                    threshold_bytes: 100,
                },
            ),
        )],
    );

    let rows = build_peer_rows_at(&state, test_now());
    let evidence = rows[0].strongest_evidence();

    assert_eq!(evidence.kind, EvidenceKind::Download);
    assert_eq!(evidence.observed, 125);
    assert!(evidence.from_policy);
}

#[test]
fn restricted_reconnect_evidence_leaves_a_column_gutter() {
    let mut state = state_with_peers(Vec::new());
    state.ui.peer_management.filter = PeerManagementFilter::Restricted;
    restrict(
        &mut state,
        vec![(
            ip("192.0.2.46"),
            restriction(
                test_now() + secs(600),
                PeerRestrictionReason::ReconnectChurn {
                    reconnects: 10,
                    threshold: 10,
                    window_secs: 10,
                },
            ),
        )],
    );

    let rows = build_peer_rows_at(&state, test_now());
    let evidence = compact_label(&rows[0].strongest_evidence());

    assert_eq!(evidence, "Reconnect 10/10");
    assert!(fits_column(&evidence, EVIDENCE_CONTENT_WIDTH));
}

#[test]
fn restricted_peer_countdown_is_combined_into_state() {
    let mut state = state_with_peers(vec![tracked_peer("192.0.2.47", "Ember Field Notes", 47)]);
    restrict(
        &mut state,
        vec![(
            ip("192.0.2.47"),
            restriction(test_now() + secs(12 * 60), PeerRestrictionReason::Manual),
        )],
    );

    let rows = build_peer_rows_at(&state, test_now());

    assert_eq!(rows[0].state_column_label(test_now()), "BLOCKED 12m");
    assert!(!peer_columns().iter().any(|column| column.header == "Restricted"));
}

#[test]
fn state_filters_keep_restricted_peers_out_of_active() {
    let mut peer = tracked_peer("192.0.2.45", "Ember Field Notes", 8);
    peer.is_active = true;
    let mut state = state_with_peers(vec![peer]);
    restrict(
        &mut state,
        vec![(
            ip("192.0.2.45"),
            restriction(test_now() + secs(600), PeerRestrictionReason::Manual),
        )],
    );

    state.ui.peer_management.filter = PeerManagementFilter::Active;
    assert!(build_peer_rows_at(&state, test_now()).is_empty());
    state.ui.peer_management.filter = PeerManagementFilter::Restricted;
    assert_eq!(build_peer_rows_at(&state, test_now()).len(), 1);
}

#[test]
fn filters_and_both_search_modes_use_peer_manager_fields() {
    let mut active = tracked_peer("192.0.2.1", "Quartz Archive", 4);
    active.is_active = true;
    active.clients = vec!["Unknown (ZZ1234)".to_string()];
    active.endpoints.push(endpoint("192.0.2.1:6881"));
    let recent = tracked_peer("198.51.100.2", "Cinder Atlas", 5);
    let mut state = state_with_peers(vec![active, recent]);

    state.ui.peer_management.filter = PeerManagementFilter::Active;
    assert_eq!(build_peer_rows_at(&state, test_now()).len(), 1);

    state.ui.peer_management.filter = PeerManagementFilter::All;
    state.ui.peer_management.search_mode = SearchMode::Regex;
    state.ui.peer_management.search_query = "quartz|6881".to_string();
    assert_eq!(build_peer_rows_at(&state, test_now()).len(), 1);

    state.ui.peer_management.search_mode = SearchMode::Fuzzy;
    state.ui.peer_management.search_query = "CNDRATLS".to_string();
    assert_eq!(build_peer_rows_at(&state, test_now()).len(), 1);

    state.ui.peer_management.search_mode = SearchMode::Regex;
    state.ui.peer_management.search_query = "ZZ1234".to_string();
    assert_eq!(build_peer_rows_at(&state, test_now()).len(), 1);

    state.ui.peer_management.search_query = "[".to_string();
    assert!(build_peer_rows_at(&state, test_now()).is_empty());
    assert_eq!(peer_search_error(&state).as_deref(), Some("Invalid regular expression"));
}

#[test]
fn cursor_index_stays_fixed_when_sorting_reorders_rows() {
    let mut lower = tracked_peer("192.0.2.11", "Opal Ledger", 6);
    lower.uploaded_evidence_bytes = 10;
    let mut higher = tracked_peer("192.0.2.12", "Sable Ledger", 7);
    higher.uploaded_evidence_bytes = 90;
    let mut state = state_with_peers(vec![lower, higher]);
    let evidence_index = column_index(PeerColumnId::Evidence);
    state.ui.peer_management.selected_index = 1;
    state.ui.peer_management.selected_column_index = evidence_index;
    state.ui.peer_management.sort_column_index = None;

    reduce_peer_management_action(&mut state, PeerManagementAction::SortBySelectedColumn);

    assert_eq!(state.ui.peer_management.selected_index, 1);
    assert_eq!(state.ui.peer_management.sort_column_index, Some(evidence_index));
    let rows = build_peer_rows_at(&state, test_now());
    assert_eq!(rows[1].ip, ip("192.0.2.11"));
}

#[test]
fn telemetry_reorder_preserves_cursor_position() {
    let mut first = tracked_peer("192.0.2.11", "Opal Ledger", 6);
    first.uploaded_evidence_bytes = 10;
    let mut second = tracked_peer("192.0.2.12", "Sable Ledger", 7);
    second.uploaded_evidence_bytes = 90;
    let mut state = state_with_peers(vec![first.clone(), second.clone()]);
    state.ui.peer_management.sort_column_index = Some(column_index(PeerColumnId::Evidence));
    state.ui.peer_management.sort_direction = SortDirection::Descending;
    recompute_peer_management_derived(&mut state, test_now());
    reduce_peer_management_action(&mut state, PeerManagementAction::MoveDown);
    assert_eq!(state.ui.peer_management.selected_index, 1);
    assert_eq!(selected_ip(&state, &state.peer_management_derived.rows), Some(first.ip));

    first.uploaded_evidence_bytes = 95;
    state.peer_manager_view =
        PeerManagerView { registered_torrents: 2, tracked_peers: vec![first, second.clone()] };
    recompute_peer_management_derived(&mut state, test_now());

    assert_eq!(state.ui.peer_management.selected_index, 1);
    assert_eq!(selected_ip(&state, &state.peer_management_derived.rows), Some(second.ip));
}

#[test]
fn telemetry_reorder_keeps_top_cursor_at_top() {
    let mut first = tracked_peer("192.0.2.11", "Opal Ledger", 6);
    first.uploaded_evidence_bytes = 10;
    let mut second = tracked_peer("192.0.2.12", "Sable Ledger", 7);
    second.uploaded_evidence_bytes = 90;
    let mut state = state_with_peers(vec![first.clone(), second.clone()]);
    state.ui.peer_management.sort_column_index = Some(column_index(PeerColumnId::Evidence));
    state.ui.peer_management.sort_direction = SortDirection::Descending;
    recompute_peer_management_derived(&mut state, test_now());
    assert_eq!(state.peer_management_derived.rows[0].ip, second.ip);

    first.uploaded_evidence_bytes = 95;
    state.peer_manager_view =
        PeerManagerView { registered_torrents: 2, tracked_peers: vec![first.clone(), second] };
    recompute_peer_management_derived(&mut state, test_now());

    assert_eq!(state.ui.peer_management.selected_index, 0);
    assert_eq!(selected_ip(&state, &state.peer_management_derived.rows), Some(first.ip));
}

#[test]
fn client_metadata_is_aggregated_for_the_peer_row() {
    let mut first = tracked_peer("192.0.2.24", "Copper Notebook", 12);
    first.clients = vec!["Unknown (BB2000)".to_string()];
    let mut second = tracked_peer("192.0.2.24", "Quartz Notebook", 13);
    second.clients = vec!["Unknown (AA1000)".to_string()];
    let state = state_with_peers(vec![first, second]);

    let rows = build_peer_rows_at(&state, test_now());

    assert_eq!(rows[0].client_label, "Unknown (AA1000), Unknown (BB2000)");
}

#[test]
fn resolved_clients_suppress_unknown_variants() {
    let mut unresolved = tracked_peer("192.0.2.26", "Copper Notebook", 14);
    unresolved.clients = vec!["Unknown".to_string(), "Unknown (AA1000)".to_string()];
    let mut resolved = tracked_peer("192.0.2.26", "Quartz Notebook", 15);
    resolved.clients = vec!["Unknown (BB2000)".to_string(), "Resolved Client 3000".to_string()];
    let state = state_with_peers(vec![unresolved, resolved.clone()]);

    let rows = build_peer_rows_at(&state, test_now());

    assert_eq!(rows[0].client_label, "Resolved Client 3000");
    assert_eq!(tracked_peer_client_label(&resolved), "Resolved Client 3000");
    assert_eq!(preferred_client_label(&Vec::new()), "Unknown");
}

#[test]
fn cursor_index_stays_fixed_when_live_peers_sort_before_it() {
    let first = tracked_peer("192.0.2.11", "Opal Ledger", 6);
    let second = tracked_peer("192.0.2.12", "Sable Ledger", 7);
    let mut state = state_with_peers(vec![first, second]);
    state.ui.peer_management.selected_index = 1;
    reduce_peer_management_action(&mut state, PeerManagementAction::ToggleDetails);
    assert_eq!(state.ui.peer_management.details_peer_ip, Some(ip("192.0.2.12")));

    state
        .peer_manager_view
        .tracked_peers
        .push(tracked_peer("192.0.2.1", "Cinder Ledger", 8));
    let rows = build_peer_rows_at(&state, test_now());

    assert_eq!(state.ui.peer_management.selected_index, 1);
    assert_eq!(selected_peer_index(&state, rows.len()), Some(1));
    assert_eq!(selected_ip(&state, &rows), Some(ip("192.0.2.11")));
    state.peer_management_derived.rows = rows;
    let pinned = pinned_peer_detail_row(&state).expect("pinned row");
    assert_eq!(state.peer_management_derived.rows[pinned].ip, ip("192.0.2.12"));
}

#[test]
fn cursor_index_clamps_when_live_rows_shrink() {
    let first = tracked_peer("192.0.2.11", "Opal Ledger", 6);
    let second = tracked_peer("192.0.2.12", "Sable Ledger", 7);
    let mut state = state_with_peers(vec![first, second]);
    state.ui.peer_management.selected_index = 1;
    state.peer_manager_view.tracked_peers.truncate(1);
    let rows = build_peer_rows_at(&state, test_now());

    assert_eq!(selected_peer_index(&state, rows.len()), Some(0));
}

#[test]
fn navigation_uses_the_existing_projection_without_recomputing() {
    let first = tracked_peer("192.0.2.11", "Cinder Atlas", 6);
    let second = tracked_peer("192.0.2.12", "Quartz Archive", 7);
    let mut state = state_with_peers(vec![first, second]);
    take_peer_derived_recompute_count(&mut state);

    reduce_peer_management_action(&mut state, PeerManagementAction::MoveDown);

    assert_eq!(take_peer_derived_recompute_count(&mut state), 0);
    assert_eq!(state.ui.peer_management.selected_index, 1);
}

#[test]
fn filter_changes_recompute_the_projection_once() {
    let mut active = tracked_peer("192.0.2.11", "Cinder Atlas", 6);
    active.is_active = true;
    let recent = tracked_peer("192.0.2.12", "Quartz Archive", 7);
    let mut state = state_with_peers(vec![active, recent]);
    take_peer_derived_recompute_count(&mut state);

    reduce_peer_management_action(&mut state, PeerManagementAction::FilterNext);

    assert_eq!(take_peer_derived_recompute_count(&mut state), 1);
    assert_eq!(state.peer_management_derived.rows.len(), 1);
    assert!(state.peer_management_derived.rows[0].is_active());
}

#[test]
fn restriction_expiry_recomputes_only_after_its_deadline() {
    let mut state = state_with_peers(Vec::new());
    restrict(
        &mut state,
        vec![(
            ip("192.0.2.20"),
            restriction(test_now() + secs(5), PeerRestrictionReason::Manual),
        )],
    );
    recompute_peer_management_derived(&mut state, test_now());
    take_peer_derived_recompute_count(&mut state);

    refresh_peer_management_expiries(&mut state, test_now() + secs(4));
    assert_eq!(take_peer_derived_recompute_count(&mut state), 0);
    assert_eq!(state.peer_management_derived.rows.len(), 1);

    refresh_peer_management_expiries(&mut state, test_now() + secs(5));
    assert_eq!(take_peer_derived_recompute_count(&mut state), 1);
    assert!(state.peer_management_derived.rows.is_empty());
}

#[test]
fn last_seen_is_default_sort_and_torrents_are_numeric() {
    let mut two_first = tracked_peer("192.0.2.21", "Zephyr Notebook", 9);
    two_first.uploaded_evidence_bytes = 90;
    two_first.last_seen = Some(test_now() - secs(90));
    let mut one = tracked_peer("192.0.2.22", "Amber Notebook", 10);
    one.is_active = true;
    one.last_seen = Some(test_now() - secs(10));
    let mut two_second = tracked_peer("192.0.2.21", "Cinder Notebook", 11);
    two_second.uploaded_evidence_bytes = 80;
    two_second.last_seen = Some(test_now() - secs(60));
    let state = state_with_peers(vec![two_first, one, two_second]);

    assert_eq!(state.ui.peer_management.selected_column_index, 9);
    assert_eq!(state.ui.peer_management.sort_column_index, Some(9));
    assert_eq!(state.ui.peer_management.sort_direction, SortDirection::Descending);
    let rows = build_peer_rows_at(&state, test_now());
    assert_eq!(rows[0].torrent_count, 1);
    assert_eq!(rows[1].torrent_count, 2);
    assert!(rows[0].is_active());
    assert_eq!(peer_torrents_label(&rows[0]), "1");
    assert_eq!(peer_torrents_label(&rows[1]), "2");
}

#[test]
fn state_sort_keeps_blocked_peers_first_in_both_directions() {
    let blocked_ip = ip("192.0.2.41");
    let blocked = tracked_peer("192.0.2.41", "Ember Field Notes", 41);
    let mut active = tracked_peer("192.0.2.42", "Quartz Field Notes", 42);
    active.is_active = true;
    let recent = tracked_peer("192.0.2.43", "Copper Field Notes", 43);
    let mut state = state_with_peers(vec![recent, blocked, active]);
    restrict(
        &mut state,
        vec![(blocked_ip, restriction(test_now() + secs(600), PeerRestrictionReason::Manual))],
    );
    state.ui.peer_management.sort_column_index = Some(column_index(PeerColumnId::State));

    state.ui.peer_management.sort_direction = SortDirection::Descending;
    let descending = build_peer_rows_at(&state, test_now());
    assert_eq!(descending[0].ip, blocked_ip);
    assert!(descending[1].is_active());

    state.ui.peer_management.sort_direction = SortDirection::Ascending;
    let ascending = build_peer_rows_at(&state, test_now());
    assert_eq!(ascending[0].ip, blocked_ip);
    assert!(!ascending[1].is_active());
}

#[test]
fn primary_sort_ties_use_last_seen_newest_first() {
    let mut older = tracked_peer("192.0.2.31", "Copper Notebook", 31);
    older.is_active = true;
    older.last_seen = Some(test_now() - secs(90));
    let mut newer = tracked_peer("192.0.2.32", "Quartz Notebook", 32);
    newer.is_active = true;
    newer.last_seen = Some(test_now() - secs(5));
    let state = state_with_peers(vec![older, newer]);

    let rows = build_peer_rows_at(&state, test_now());

    assert_eq!(rows[0].ip, ip("192.0.2.32"));
    assert_eq!(rows[1].ip, ip("192.0.2.31"));
}

#[test]
fn peer_details_separate_titles_and_explain_reconnect_evidence() {
    let mut peer = tracked_peer("192.0.2.23", "Copper Notebook", 11);
    peer.reconnect_count = 3;

    let mut lines = Vec::new();
    tracked_peer_detail_lines(&mut lines, &peer, 1, false, 80);
    assert_eq!(line_text(&lines[0]), "01  Copper Notebook");
    assert!(line_text(&lines[1]).contains("Hash "));
    assert_eq!(line_text(&lines[2]), "  Client Unknown");
    assert_eq!(line_text(&lines[5]), "  Reconnects  3 / 10  •  10s window");

    let evidence = PeerEvidence {
        kind: EvidenceKind::Reconnect,
        observed: 3,
        threshold: 10,
        from_policy: false,
    };
    assert_eq!(compact_label(&evidence), "Reconnect 3/10");
}

#[test]
fn fixed_peer_column_labels_stay_within_declared_widths() {
    for state in ["ACTIVE", "RECENT", "BLOCKED"] {
        assert!(fits_column(state, STATE_COLUMN_WIDTH));
    }

    let state = state_with_peers(vec![tracked_peer("192.0.2.90", "Cinder Atlas", 90)]);
    let mut rows = build_peer_rows_at(&state, test_now());
    rows[0].torrent_count = usize::MAX;
    let torrents = peer_torrents_label(&rows[0]);
    assert!(fits_column(&torrents, TORRENTS_COLUMN_WIDTH));
    if usize::BITS > 32 {
        assert_eq!(torrents, "999999999+");
    }

    assert!(fits_column(&compact_count(u64::MAX), CONNECTS_COLUMN_WIDTH));
    assert!(fits_column(&compact_count(u64::MAX), DISCONNECTS_COLUMN_WIDTH));
    assert!(fits_column(&compact_transfer_bytes(u64::MAX), TRANSFER_COLUMN_WIDTH));

    let reconnect = compact_label(&PeerEvidence {
        kind: EvidenceKind::Reconnect,
        observed: u64::MAX,
        threshold: u64::MAX,
        from_policy: false,
    });
    assert_eq!(reconnect, "R 18E/18E");
    assert!(fits_column(&reconnect, EVIDENCE_CONTENT_WIDTH));

    let upload = compact_label(&PeerEvidence {
        kind: EvidenceKind::Upload,
        observed: u64::MAX,
        threshold: 1,
        from_policy: false,
    });
    assert_eq!(upload, "UL 1.8Z%");
    assert!(fits_column(&upload, EVIDENCE_CONTENT_WIDTH));

    let now = secs(1_000_000 * 86_400);
    let last_seen = format_elapsed(now, 0);
    assert_eq!(last_seen, ">999d ago");
    assert!(fits_column(&last_seen, LAST_SEEN_COLUMN_WIDTH));

    let restricted = format_remaining(now, now + secs(1_000_000 * 86_400));
    assert_eq!(restricted, ">99d left");
    assert!(fits_column(&restricted, RESTRICTION_REMAINING_WIDTH));

    for column in peer_columns()
        .iter()
        .filter(|column| !matches!(column.id, PeerColumnId::Address | PeerColumnId::Client))
    {
        let header = format!("{} ▼", column.header);
        assert!(fits_column(&header, column.min_width), "{header}");
    }
}

#[test]
fn selected_sort_header_underlines_only_the_column_label() {
    let mut state = state_with_peers(Vec::new());
    let torrents = column_index(PeerColumnId::Torrents);
    state.ui.peer_management.selected_column_index = torrents;
    state.ui.peer_management.sort_column_index = Some(torrents);
    state.ui.peer_management.sort_direction = SortDirection::Descending;

    let cells = peer_table_header(&state, &vec![0, torrents]);

    assert_eq!(cells[1].label, "Torrents");
    assert!(cells[1].selected);
    assert_eq!(cells[1].arrow, Some(" ▼"));
    assert!(!cells[0].selected);
    assert_eq!(cells[0].arrow, None);
}

#[test]
fn details_search_filters_only_torrent_names_for_the_pinned_peer() {
    let first = tracked_peer("192.0.2.27", "Quartz Archive", 27);
    let second = tracked_peer("192.0.2.27", "Cinder Atlas", 28);
    let mut state = state_with_peers(vec![first, second]);
    state.screen_area = Rect::new(0, 0, 100, 30);
    reduce_peer_management_action(&mut state, PeerManagementAction::ToggleDetails);

    assert_eq!(
        map_key_to_peer_management_action(KeyCode::Char('/'), &state),
        Some(PeerManagementAction::StartDetailsSearch)
    );
    reduce_peer_management_action(&mut state, PeerManagementAction::StartDetailsSearch);
    for character in "quartz".chars() {
        reduce_peer_management_action(
            &mut state,
            PeerManagementAction::DetailsSearchInsert(character),
        );
    }
    reduce_peer_management_action(&mut state, PeerManagementAction::DetailsSearchCommit);

    let pinned = pinned_peer_detail_row(&state).expect("pinned row");
    let row = &state.peer_management_derived.rows[pinned];
    let matching = matching_detail_torrents(&state, row);
    let rendered = peer_detail_lines(&state, row, test_now(), 80)
        .iter()
        .map(line_text)
        .collect::<Vec<_>>()
        .join("\n");

    assert_eq!(matching.len(), 1);
    assert_eq!(
        state.peer_manager_view.tracked_peers[matching[0]].torrent_name,
        "Quartz Archive"
    );
    assert!(rendered.contains("1 of 2"));
    assert!(rendered.contains("Quartz Archive"));
    assert!(!rendered.contains("Cinder Atlas"));
    assert_eq!(state.ui.peer_management.details_peer_ip, Some(ip("192.0.2.27")));
}

#[test]
fn peer_details_scroll_through_large_torrent_histories() {
    let peers = (0..40)
        .map(|index| {
            tracked_peer("192.0.2.24", &format!("Archive Volume {}", index + 1), index as u8)
        })
        .collect::<Vec<_>>();
    let mut state = state_with_peers(peers);
    state.screen_area = Rect::new(0, 0, 140, 36);
    reduce_peer_management_action(&mut state, PeerManagementAction::ToggleDetails);
    let rows = build_peer_rows_at(&state, test_now());
    let row = &rows[0];

    assert_eq!(row.torrent_count, 40);
    let line_count = peer_detail_lines(&state, row, test_now(), 48).len();
    assert_eq!(line_count, peer_detail_line_count(&state, row));
    assert!(peer_details_max_scroll(&state) > 0);

    let before_scroll = peer_details_window(line_count, 22, 0);
    state.ui.needs_redraw = false;
    handle_event(
        TerminalEvent::Key(KeyEvent::new(KeyCode::Down, KeyModifiers::none())),
        &mut state,
    );
    assert_eq!(state.ui.peer_management.details_scroll_offset, 1);
    assert!(state.ui.needs_redraw);
    let after_scroll =
        peer_details_window(line_count, 22, state.ui.peer_management.details_scroll_offset);
    assert_ne!(after_scroll, before_scroll);
    reduce_peer_management_action(&mut state, PeerManagementAction::ScrollDetailsPageDown);
    assert!(state.ui.peer_management.details_scroll_offset > 1);
    reduce_peer_management_action(&mut state, PeerManagementAction::ScrollDetailsUp);
    assert!(state.ui.peer_management.details_scroll_offset > 0);
}

#[test]
fn details_overlay_owns_plain_navigation_keys_at_wide_widths() {
    let mut state = state_with_peers(vec![tracked_peer("192.0.2.25", "Copper Notebook", 25)]);
    state.screen_area = Rect::new(0, 0, 150, 40);
    state.ui.peer_management.show_details = true;

    assert_eq!(
        map_key_to_peer_management_action(KeyCode::Down, &state),
        Some(PeerManagementAction::ScrollDetailsDown)
    );
    assert_eq!(
        map_key_to_peer_management_action(KeyCode::Enter, &state),
        Some(PeerManagementAction::CloseDetails)
    );
}

#[test]
fn search_panel_keys_take_precedence_while_visible() {
    let mut state = state_with_peers(Vec::new());
    assert_eq!(
        map_key_to_peer_management_action(KeyCode::Tab, &state),
        Some(PeerManagementAction::FilterNext)
    );

    state.ui.peer_management.is_searching = true;
    assert_eq!(
        map_key_to_peer_management_action(KeyCode::Tab, &state),
        Some(PeerManagementAction::ToggleSearchMode)
    );
    assert_eq!(
        map_key_to_peer_management_action(KeyCode::Esc, &state),
        Some(PeerManagementAction::SearchCancel)
    );

    state.ui.peer_management.is_searching = false;
    state.ui.peer_management.search_query = "quartz".to_string();
    assert_eq!(
        map_key_to_peer_management_action(KeyCode::Tab, &state),
        Some(PeerManagementAction::ToggleSearchMode)
    );
}

#[test]
fn privacy_masks_numeric_peer_identity_and_endpoints() {
    let ip = ip("203.0.113.55");
    let address = "203.0.113.55:51413";

    let masked_ip = display_ip(ip, true);
    let masked_endpoint = display_endpoint(address, address, true);

    assert!(!masked_ip.contains("203.0.113.55"));
    assert!(!masked_endpoint.contains("203.0.113.55"));
    assert_ne!(masked_ip, display_ip(ip, false));
    assert_ne!(masked_endpoint, display_endpoint(address, address, false));

    let mut state = state_with_peers(Vec::new());
    state.ui.peer_management.search_query = address.to_string();
    reduce_peer_management_action(&mut state, PeerManagementAction::TogglePrivacy);
    assert!(state.anonymize_torrent_names);
    assert!(state.ui.peer_management.search_query.is_empty());
    assert!(!state.ui.peer_management.is_searching);
}

#[test]
fn privacy_pseudonyms_preserve_the_full_stable_hash() {
    let pseudonyms = (0..4_096_u128)
        .map(|index| {
            let ip = IpAddr::V6(0x2001_0db8_0000_0000_0000_0000_0000_0000_u128 + index);
            display_ip(ip, true)
        })
        .collect::<BTreeSet<_>>();

    assert_eq!(pseudonyms.len(), 4_096);
    assert!(pseudonyms
        .iter()
        .all(|pseudonym| pseudonym.len() == "peer-".len() + 16));
}

#[test]
fn privacy_search_matches_the_values_displayed_to_the_user() {
    let mut peer = tracked_peer("192.0.2.61", "Quartz Archive", 61);
    peer.endpoints.push(endpoint("192.0.2.61:6881"));
    let displayed_ip = display_ip(peer.ip, true);
    let displayed_endpoint =
        display_endpoint(&peer.endpoints[0].address, &peer.endpoints[0].shown_address, true);
    let displayed_torrent = display_torrent_name(&peer.shown_name, &peer.masked_name, true);
    let mut state = state_with_peers(vec![peer]);
    state.anonymize_torrent_names = true;

    for query in [&displayed_ip, &displayed_endpoint, &displayed_torrent] {
        state.ui.peer_management.search_query.clone_from(query);
        assert_eq!(build_peer_rows_at(&state, test_now()).len(), 1);
    }

    state.ui.peer_management.search_query.clear();
    state.ui.peer_management.details_search_query.clone_from(&displayed_torrent);
    let rows = build_peer_rows_at(&state, test_now());
    assert_eq!(matching_detail_torrents(&state, &rows[0]).len(), 1);

    state.ui.peer_management.details_search_query.clear();
    state.ui.peer_management.search_query = "192.0.2.61".to_string();
    assert!(build_peer_rows_at(&state, test_now()).is_empty());
}

#[test]
fn subsecond_last_seen_is_not_rounded_to_now() {
    let now = test_now();

    assert_eq!(format_elapsed(now, now), "<1s ago");
    assert_eq!(format_elapsed(now, now - 999_000_000), "<1s ago");
    assert_eq!(format_elapsed(now, now - secs(1)), "1s ago");
}

#[test]
fn evidence_ratios_are_compared_without_truncation() {
    let left = PeerEvidence {
        kind: EvidenceKind::Upload,
        observed: 1_000_001,
        threshold: 1_000_000,
        from_policy: false,
    };
    let right = PeerEvidence {
        kind: EvidenceKind::Download,
        observed: 1_000_000,
        threshold: 999_999,
        from_policy: false,
    };

    assert_eq!(compare_evidence_ratio(&left, &right), Comparison::Less);
}

#[test]
fn narrow_table_keeps_state_address_and_evidence() {
    let (_, visible) = compute_visible_peer_management_columns(64);
    let columns = peer_columns();
    let ids = visible.into_iter().map(|index| columns[index].id).collect::<Vec<_>>();

    assert!(ids.contains(&PeerColumnId::State));
    assert!(ids.contains(&PeerColumnId::Address));
    assert!(ids.contains(&PeerColumnId::Evidence));
    assert!(!ids.contains(&PeerColumnId::Torrents));
    assert!(!ids.contains(&PeerColumnId::Client));
}

#[test]
fn wide_table_splits_remaining_space_evenly_between_address_and_client() {
    let (constraints, visible) = compute_visible_peer_management_columns(160);
    let columns = peer_columns();
    let constraint_for = |column_id| {
        visible
            .iter()
            .position(|index| columns[*index].id == column_id)
            .map(|position| constraints[position])
    };

    assert_eq!(constraint_for(PeerColumnId::Address), Some(Constraint::Fill(1)));
    assert_eq!(constraint_for(PeerColumnId::Client), Some(Constraint::Fill(1)));
}

#[test]
fn standard_table_exposes_all_peer_activity_columns() {
    let (_, visible) = compute_visible_peer_management_columns(140);
    let columns = peer_columns();
    let ids = visible.into_iter().map(|index| columns[index].id).collect::<Vec<_>>();

    assert!(ids.contains(&PeerColumnId::Connects));
    assert!(ids.contains(&PeerColumnId::Disconnects));
    assert!(ids.contains(&PeerColumnId::Downloaded));
    assert!(ids.contains(&PeerColumnId::Uploaded));
}

#[test]
fn addresses_are_written_in_their_shortest_form() {
    assert_eq!(format_ip(IpAddr::V4(0xc000_020a)), "192.0.2.10");
    assert_eq!(format_ip(IpAddr::V6(0)), "::");
    assert_eq!(format_ip(IpAddr::V6(1)), "::1");
    assert_eq!(
        format_ip(IpAddr::V6(0x2001_0db8_0000_0000_0001_0000_0000_0001)),
        "2001:db8::1:0:0:1"
    );
    assert_eq!(
        format_ip(IpAddr::V6(0x2001_0db8_0000_0001_0001_0001_0001_0001)),
        "2001:db8:0:1:1:1:1:1"
    );
    assert_eq!(format_ip(ip("::ffff:192.0.2.10")), "::ffff:192.0.2.10");
    assert_eq!(normalize_peer_ip(ip("::ffff:192.0.2.10")), ip("192.0.2.10"));
    assert_eq!(compare_ips(ip("9.0.0.0"), ip("10.0.0.0")), Comparison::Less);
    assert_eq!(compare_ips(IpAddr::V6(0), ip("255.0.0.0")), Comparison::Greater);
}

#[test]
fn masks_are_those_of_the_full_text() {
    assert_eq!(stable_mask_id(""), 0xcbf2_9ce4_8422_2325);
    assert_eq!(stable_mask_id("a"), 0xaf63_dc4c_8601_ec8c);
    assert_eq!(stable_mask_id("é"), stable_mask_id("é"));
    assert_ne!(stable_mask_id("é"), stable_mask_id("e"));
    assert_eq!(display_ip(ip("0.0.0.0"), true).len(), 21);
    assert_eq!(short_info_hash(&vec![0xab; 20], false), "abababababab");
    assert_eq!(short_info_hash(&vec![0xab; 20], true), "hidden-hash");
}

#[test]
fn durations_have_two_units_at_most() {
    assert_eq!(compact_duration(0), "0s");
    assert_eq!(compact_duration(59), "59s");
    assert_eq!(compact_duration(119), "1m");
    assert_eq!(compact_duration(3_660), "1h 1m");
    assert_eq!(compact_duration(90_000), "1d 1h");
    assert_eq!(format_remaining(test_now(), test_now()), "expired");
    assert_eq!(format_remaining(test_now(), test_now() + secs(61)), "1m left");
}

#[test]
fn the_strongest_evidence_is_the_largest_share() {
    let weak = PeerEvidence {
        kind: EvidenceKind::Reconnect,
        observed: 1,
        threshold: 2,
        from_policy: false,
    };
    let manual = PeerEvidence { from_policy: true, ..weak };
    assert_eq!(compare_evidence(&weak, &manual), Comparison::Less);
    assert_eq!(compare_evidence(&manual, &weak), Comparison::Greater);
    assert_eq!(compare_evidence(&weak, &weak), Comparison::Equal);
}

#[test]
fn the_summary_counts_addresses_once() {
    let mut first = tracked_peer("192.0.2.10", "Quartz Archive", 1);
    first.is_active = true;
    let second = tracked_peer("::ffff:192.0.2.10", "Cinder Atlas", 2);
    let third = tracked_peer("192.0.2.11", "Cinder Atlas", 2);
    let mut state = state_with_peers(vec![first, second, third]);
    restrict(
        &mut state,
        vec![
            (ip("192.0.2.77"), restriction(test_now() + 1, PeerRestrictionReason::Manual)),
            (ip("192.0.2.78"), restriction(test_now(), PeerRestrictionReason::Manual)),
        ],
    );
    let counts = peer_summary_counts_at(&state, test_now());
    assert_eq!((counts.tracked_peers, counts.active, counts.restricted), (2, 1, 1));
}

#[test]
fn sorting_twice_turns_the_direction_round() {
    let mut state = state_with_peers(vec![
        tracked_peer("192.0.2.10", "Quartz Archive", 1),
        tracked_peer("192.0.2.11", "Cinder Atlas", 2),
    ]);
    let address = column_index(PeerColumnId::Address);
    state.screen_area = Rect::new(0, 0, 160, 40);
    state.ui.peer_management.selected_column_index = address;
    let sort = PeerManagementAction::SortBySelectedColumn;
    reduce_peer_management_action_at(&mut state, sort, test_now());
    assert_eq!(state.ui.peer_management.sort_column_index, Some(address));
    assert_eq!(state.ui.peer_management.sort_direction, SortDirection::Ascending);
    assert_eq!(state.peer_management_derived.rows[0].ip, ip("192.0.2.10"));
    reduce_peer_management_action_at(&mut state, sort, test_now());
    assert_eq!(state.ui.peer_management.sort_direction, SortDirection::Descending);
    assert_eq!(state.peer_management_derived.rows[0].ip, ip("192.0.2.11"));
}

#[test]
fn leaving_drops_searches_and_details() {
    let mut state = state_with_peers(vec![tracked_peer("192.0.2.10", "Quartz Archive", 1)]);
    state.ui.peer_management.search_query = "quartz".to_string();
    state.ui.peer_management.show_details = true;
    state.ui.peer_management.details_search_query = "quartz".to_string();
    let result = reduce_peer_management_action_at(
        &mut state,
        PeerManagementAction::ToNormal,
        test_now(),
    );
    assert!(result.redraw);
    assert_eq!(result.effects.len(), 1);
    assert!(state.ui.peer_management.search_query.is_empty());
    assert!(state.ui.peer_management.details_search_query.is_empty());
    assert!(!state.ui.peer_management.show_details);
}

#[test]
fn the_selection_stays_on_a_row_whatever_comes() {
    let mut state = state_with_peers(vec![
        tracked_peer("192.0.2.10", "Quartz Archive", 1),
        tracked_peer("192.0.2.11", "Cinder Atlas", 2),
        tracked_peer("192.0.2.12", "Cinder Atlas", 2),
    ]);
    for (action, expected) in [
        (PeerManagementAction::MoveLast, 2),
        (PeerManagementAction::MoveDown, 2),
        (PeerManagementAction::MovePageUp, 0),
        (PeerManagementAction::MoveUp, 0),
        (PeerManagementAction::MovePageDown, 2),
        (PeerManagementAction::MoveFirst, 0),
    ] {
        reduce_peer_management_action_at(&mut state, action, test_now());
        assert_eq!(state.ui.peer_management.selected_index, expected, "{action:?}");
    }
    state.peer_manager_view.tracked_peers.clear();
    recompute_peer_management_derived(&mut state, test_now());
    reduce_peer_management_action_at(&mut state, PeerManagementAction::MoveDown, test_now());
    assert_eq!(state.ui.peer_management.selected_index, 0);
    reduce_peer_management_action_at(&mut state, PeerManagementAction::ToggleDetails, test_now());
    assert!(!state.ui.peer_management.show_details);
}

#[test]
fn cells_show_what_is_known_of_a_peer() {
    let mut peer = tracked_peer("192.0.2.10", "Quartz Archive", 1);
    peer.is_active = true;
    peer.uploaded_evidence_bytes = 25;
    let state = state_with_peers(vec![peer]);
    let row = &state.peer_management_derived.rows[0];
    let parts = PeerRowTexts {
        client: "Unknown".to_string(),
        connects: "1".to_string(),
        disconnects: "2".to_string(),
        downloaded: "3 B".to_string(),
        uploaded: "4 B".to_string(),
        evidence: RoundedEvidence {
            percent: "25".to_string(),
            compact_percent: "25".to_string(),
            compact_observed: "25".to_string(),
            compact_threshold: "100".to_string(),
        },
    };
    let visible = (0..10).collect::<Vec<_>>();
    assert_eq!(
        peer_table_row(&state, row, &visible, test_now(), &parts),
        ["ACTIVE", "192.0.2.10", "1", "Unknown", "1", "2", "3 B", "4 B", "UL 25%", "30s ago"]
    );
    assert_eq!(peer_row_tone(row), PeerRowTone::Active);
}

#[test]
fn messages_tell_why_a_table_is_empty() {
    let mut state = state_with_peers(Vec::new());
    assert_eq!(empty_table_message(&state), "No peers tracked yet");
    state.ui.peer_management.filter = PeerManagementFilter::Recent;
    assert_eq!(empty_table_message(&state), "No peers match this view");
    state.ui.peer_management.status_message = Some("busy".to_string());
    assert_eq!(peer_summary_message(&state).as_deref(), Some("busy"));
    state.ui.peer_management.search_query = "(".to_string();
    assert_eq!(empty_table_message(&state), "Fix the search expression to see peers");
    assert_eq!(peer_summary_message(&state).as_deref(), Some("Invalid regular expression"));
    state.ui.peer_management.search_mode = SearchMode::Fuzzy;
    assert_eq!(peer_summary_message(&state).as_deref(), Some("busy"));
}

#[test]
fn the_details_of_a_restricted_peer_tell_why() {
    let mut state = state_with_peers(vec![tracked_peer("192.0.2.10", "Quartz Archive", 1)]);
    restrict(
        &mut state,
        vec![(
            ip("192.0.2.10"),
            restriction(
                test_now() + secs(120),
                PeerRestrictionReason::ReconnectChurn {
                    reconnects: 12,
                    threshold: 10,
                    window_secs: 60,
                },
            ),
        )],
    );
    let rows = build_peer_rows_at(&state, test_now());
    let lines = peer_detail_lines(&state, &rows[0], test_now(), 60);
    let text = lines.iter().map(line_text).collect::<Vec<_>>();
    assert_eq!(text[0], "192.0.2.10  BLOCKED  •  1 torrent  •  0 endpoints");
    assert_eq!(text[1], "Client: Unknown");
    assert_eq!(text[3], "Policy");
    assert_eq!(text[4], "Reason: Reconnect churn: 12/10 in 1m");
    assert_eq!(text[5], "Detected: 1m ago");
    assert_eq!(text[6], "Expires: 2m left");
    assert_eq!(text[7], "Origin: global/manual");
    assert_eq!(lines.len(), peer_detail_line_count(&state, &rows[0]));
    let reason = rows[0].restriction.as_ref().expect("restriction").reason;
    assert_eq!(restriction_reason_detail(&reason, "", ""), "Reconnect churn: 12/10 in 1m");
    assert_eq!(
        restriction_reason_detail(
            &PeerRestrictionReason::ExcessiveUpload { uploaded_bytes: 2, threshold_bytes: 1 },
            "2 B",
            "1 B"
        ),
        "Excessive upload: 2 B / 1 B"
    );
}

#[test]
fn a_search_reads_what_the_row_shows() {
    let mut peer = tracked_peer("192.0.2.10", "Quartz Archive", 1);
    peer.endpoints.push(endpoint("192.0.2.10:6881"));
    let state = state_with_peers(vec![peer]);
    let text = peer_search_text(&state.peer_management_derived.rows[0], &state);
    for part in ["192.0.2.10", "Quartz Archive", "192.0.2.10:6881", "RECENT"] {
        assert!(text.contains(part), "{part} in {text}");
    }
}

#[test]
fn the_peer_footer_follows_what_is_shown() {
    let mut state = state_with_peers(Vec::new());
    let keys = |state: &AppState| {
        peer_footer(state).iter().map(|hint| hint.key).collect::<Vec<_>>()
    };
    assert_eq!(keys(&state), ["arrows", "h/l", "s", "Tab", "/", "Enter", "x", "Esc"]);
    state.ui.peer_management.search_query = "a".to_string();
    assert_eq!(
        keys(&state),
        ["arrows", "h/l", "s", "Tab", "Shift+Tab", "/", "Enter", "x", "Esc", "q"]
    );
    state.ui.peer_management.show_details = true;
    assert_eq!(keys(&state), ["↑/↓", "/", "Enter/Esc", "q"]);
    state.ui.peer_management.details_is_searching = true;
    assert_eq!(keys(&state), ["Enter", "Tab", "Esc"]);
}

#[test]
fn detail_lines_have_their_words() {
    let mut peer = tracked_peer("192.0.2.10", "Quartz Archive", 1);
    peer.uploaded_evidence_bytes = 60;
    peer.downloaded_evidence_bytes = 30;
    peer.transfer_threshold_bytes = 120;
    let mut lines = Vec::new();
    tracked_peer_detail_lines(&mut lines, &peer, 2, false, 80);
    assert_eq!(line_text(&lines[0]), "02  Quartz Archive");
    assert_eq!(line_text(&lines[3]), "  Upload    60 / 120 (50%)");
    assert_eq!(line_text(&lines[4]), "  Download  30 / 120 (25%)");
    assert_eq!(line_text(&lines[6]), "  Endpoints  none");

    let mut known = endpoint("192.0.2.10:6881");
    known.total_downloaded = 7;
    known.total_uploaded = 9;
    peer.endpoints.push(known);
    let mut lines = Vec::new();
    tracked_peer_detail_lines(&mut lines, &peer, 2, false, 80);
    assert_eq!(line_text(&lines[6]), "  Endpoints");
    assert_eq!(line_text(&lines[7]), "    1  192.0.2.10:6881  •  DL 7  •  UL 9");
}

#[test]
fn narrower_tables_are_parts_of_the_whole_in_its_order() {
    let mut peers = Vec::new();
    for k in 1..=9u8 {
        let mut peer = tracked_peer(&format!("192.0.2.{k}"), "Quartz Archive", k);
        peer.is_active = k % 2 == 0;
        peer.uploaded_evidence_bytes = u64::from(k * 7 % 10);
        peers.push(peer);
    }
    let mut state = state_with_peers(peers);
    let until = test_now() + secs(60);
    restrict(
        &mut state,
        vec![
            (ip("192.0.2.3"), restriction(until, PeerRestrictionReason::Manual)),
            (ip("192.0.2.4"), restriction(until, PeerRestrictionReason::Manual)),
        ],
    );
    let mut addresses = |filter| {
        state.ui.peer_management.filter = filter;
        build_peer_rows_at(&state, test_now()).iter().map(|row| row.ip).collect::<Vec<_>>()
    };
    let all = addresses(PeerManagementFilter::All);
    let active = addresses(PeerManagementFilter::Active);
    let recent = addresses(PeerManagementFilter::Recent);
    let restricted = addresses(PeerManagementFilter::Restricted);
    assert_eq!((all.len(), active.len(), recent.len(), restricted.len()), (9, 3, 4, 2));
    for part in [&active, &recent, &restricted] {
        let within = all.iter().filter(|ip| part.contains(ip)).copied().collect::<Vec<_>>();
        assert_eq!(&within, part);
    }
    assert!(restricted.contains(&ip("192.0.2.4")) && !active.contains(&ip("192.0.2.4")));
}
