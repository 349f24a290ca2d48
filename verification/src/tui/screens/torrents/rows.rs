//! The rows of the torrent table: which torrents are on view, in which order.
use crate::app::{torrent_hashes, AppState, TorrentControlState, TorrentDisplayState};
use crate::geometry::max_int;
use crate::lists::{
    byte_strings, copy_bytes, find_bytes, holds_bytes, index_of, keep_flagged, kept, kept_agree,
    kept_contains, position_of, position_of_is_first, position_of_unique, same_bytes,
};
use crate::order::{
    apply_sort_direction, break_tie, by_number, by_text, compare_numbers, compare_texts, directed,
    index_positions, or_by, order_of, positions, stable_sort, stably_sorted,
    stably_sorted_keeps_items, Comparison, Precedence,
};
use crate::search::{matches_query, query_matches};
use crate::text::{is_text_before, owned, text_before, trim, trimmed};
use crate::tui::screens::torrents::columns::{
    management_sort_column, sort_column, ManagementColumnId,
};
use crate::tui::screens::torrents::model::ManagementModel;
use vstd::prelude::*;
use vstd::string::StringExecFns;

verus! {

/// The quantities that a row shows.
#[derive(Clone, Debug, PartialEq)]
pub struct RowMetrics {
    pub count: usize,
    pub state_label: String,
    pub peer_count: usize,
    pub download_bps: u64,
    pub upload_bps: u64,
    pub eta_nanos: Option<u128>,
    pub total_size: u64,
    pub added_at_unix_secs: Option<u64>,
}

#[derive(Clone, Copy, Debug, PartialEq, Eq, Structural)]
pub enum ManagementRowKind {
    Torrent,
}

/// A row of the table.
#[derive(Clone, Debug, PartialEq)]
pub struct ManagementRow {
    pub kind: ManagementRowKind,
    pub label: String,
    pub info_hashes: Vec<Vec<u8>>,
    pub depth: usize,
    pub completed_rank: u64,
    pub metrics: RowMetrics,
}

/// How much of a row is selected.
#[derive(Clone, Copy, Debug, PartialEq, Eq, Structural)]
pub enum SelectionState {
    Empty,
    Partial,
    Full,
}

/// The torrent of a hash: its first position in the list.
pub open spec fn find(torrents: Seq<TorrentDisplayState>, hash: Seq<u8>) -> Option<int> {
    position_of(torrent_hashes(torrents), hash)
}

/// The position of the torrent with a hash.
pub fn find_torrent(torrents: &Vec<TorrentDisplayState>, hash: &Vec<u8>) -> (position: Option<
    usize,
>)
    ensures
        index_of(position) == find(torrents@, hash@),
        position matches Some(i) ==> i < torrents@.len() && torrents@[i as int].info_hash@ == hash@,
        position is Some <==> torrent_hashes(torrents@).contains(hash@),
{
    let ghost list = torrent_hashes(torrents@);
    proof {
        position_of_is_first(list, hash@);
    }
    let mut i: usize = 0;
    while i < torrents.len()
        invariant
            i <= torrents@.len(),
            list == torrent_hashes(torrents@),
            position_of(list.take(i as int), hash@) is None,
        decreases torrents@.len() - i,
    {
        assert(list.take(i + 1).drop_last() =~= list.take(i as int));
        if same_bytes(&torrents[i].info_hash, hash) {
            proof {
                crate::lists::prefix_position(list, hash@, i + 1);
            }
            return Some(i);
        }
        i = i + 1;
    }
    assert(list.take(i as int) =~= list);
    None
}

/// The name of the torrent with a hash; empty where there is none.
pub fn torrent_name(app_state: &AppState, info_hash: &Vec<u8>) -> (name: String)
    ensures
        name@ == match find(app_state.torrents@, info_hash@) {
            Some(i) => app_state.torrents@[i].torrent_name@,
            None => Seq::empty(),
        },
{
    match find_torrent(&app_state.torrents, info_hash) {
        Some(i) => app_state.torrents[i].torrent_name.clone(),
        None => String::new(),
    }
}

/// Torrents that the dashboard lists come first, in its order; the others follow
/// by name.
pub open spec fn list_precedes(m: ManagementModel, i: int, j: int) -> bool {
    match (
        position_of(m.list_order, m.torrents[i].info_hash@),
        position_of(m.list_order, m.torrents[j].info_hash@),
    ) {
        (Some(a), Some(b)) => a < b,
        (Some(_), None) => true,
        (None, Some(_)) => false,
        (None, None) => text_before(m.torrents[i].torrent_name@, m.torrents[j].torrent_name@),
    }
}

/// The torrents in the order of the list.
pub open spec fn listed(m: ManagementModel) -> Seq<usize> {
    stably_sorted(positions(m.torrents.len()), |a: usize, b: usize| list_precedes(m, a as int, b as int))
}

pub struct ListOrder<'a> {
    pub state: &'a AppState,
}

impl<'a> Precedence<usize> for ListOrder<'a> {
    open spec fn precedes(&self, a: usize, b: usize) -> bool {
        list_precedes(self.state.management(), a as int, b as int)
    }

    open spec fn knows(&self, a: usize) -> bool {
        a < self.state.torrents@.len()
    }

    fn goes_before(&self, a: &usize, b: &usize) -> (before: bool) {
        let left = &self.state.torrents[*a];
        let right = &self.state.torrents[*b];
        let left_rank = find_bytes(&self.state.torrent_list_order, &left.info_hash);
        let right_rank = find_bytes(&self.state.torrent_list_order, &right.info_hash);
        match (left_rank, right_rank) {
            (Some(left_rank), Some(right_rank)) => left_rank < right_rank,
            (Some(_), None) => true,
            (None, Some(_)) => false,
            (None, None) => is_text_before(
                left.torrent_name.as_str(),
                right.torrent_name.as_str(),
            ),
        }
    }
}

/// The torrents in the order of the list, by position.
pub fn ordered_torrents(app_state: &AppState) -> (order: Vec<usize>)
    ensures
        order@ == listed(app_state.management()),
        forall|k: int| 0 <= k < order@.len() ==> #[trigger] order@[k] < app_state.torrents@.len(),
        order@.len() == app_state.torrents@.len(),
{
    let all = index_positions(app_state.torrents.len());
    let by_list = ListOrder { state: app_state };
    let order = stable_sort(&all, &by_list);
    proof {
        let m = app_state.management();
        let before = |a: usize, b: usize| list_precedes(m, a as int, b as int);
        assert(order_of::<usize, ListOrder>(&by_list) =~= before);
        listed_positions_are_known(m);
    }
    order
}

/// The listed positions are those of the torrents, each once.
pub proof fn listed_positions_are_known(m: ManagementModel)
    requires
        m.torrents.len() <= usize::MAX,
    ensures
        listed(m).len() == m.torrents.len(),
        forall|k: int| 0 <= k < listed(m).len() ==> #[trigger] listed(m)[k] < m.torrents.len(),
        forall|i: usize| (i as int) < m.torrents.len() ==> #[trigger] listed(m).contains(i),
{
    broadcast use vstd::seq_lib::group_to_multiset_ensures;

    let before = |a: usize, b: usize| list_precedes(m, a as int, b as int);
    let all = positions(m.torrents.len());
    stably_sorted_keeps_items(all, before);
    let out = listed(m);
    assert forall|k: int| 0 <= k < out.len() implies #[trigger] out[k] < m.torrents.len() by {
        assert(out.contains(out[k]));
        assert(out.to_multiset().count(out[k]) > 0);
        assert(all.to_multiset().count(out[k]) > 0);
        assert(all.contains(out[k]));
        let j = choose|j: int| 0 <= j < all.len() && all[j] == out[k];
        assert(all[j] == j as usize);
    }
    assert forall|i: usize| (i as int) < m.torrents.len() implies #[trigger] out.contains(i) by {
        assert(all[i as int] == i);
        assert(all.contains(i));
        assert(all.to_multiset().count(i) > 0);
        assert(out.to_multiset().count(i) > 0);
    }
}

/// The hashes of the torrents in the order of the list.
pub fn ordered_torrent_hashes(app_state: &AppState) -> (hashes: Vec<Vec<u8>>)
    ensures
        byte_strings(hashes@) == listed_hashes(app_state.management(), listed(app_state.management())),
{
    let order = ordered_torrents(app_state);
    hashes_at(app_state, &order)
}

/// The hashes of the torrents at some positions.
pub open spec fn listed_hashes(m: ManagementModel, order: Seq<usize>) -> Seq<Seq<u8>> {
    order.map_values(|i: usize| m.torrents[i as int].info_hash@)
}

fn hashes_at(app_state: &AppState, order: &Vec<usize>) -> (hashes: Vec<Vec<u8>>)
    requires
        forall|k: int| 0 <= k < order@.len() ==> #[trigger] order@[k] < app_state.torrents@.len(),
    ensures
        byte_strings(hashes@) == listed_hashes(app_state.management(), order@),
        hashes@.len() == order@.len(),
{
    let ghost all = listed_hashes(app_state.management(), order@);
    let mut hashes: Vec<Vec<u8>> = Vec::new();
    let mut k: usize = 0;
    while k < order.len()
        invariant
            k <= order@.len(),
            all == listed_hashes(app_state.management(), order@),
            forall|k: int|
                0 <= k < order@.len() ==> #[trigger] order@[k] < app_state.torrents@.len(),
            byte_strings(hashes@) == all.take(k as int),
            hashes@.len() == k,
        decreases order@.len() - k,
    {
        let ghost was = byte_strings(hashes@);
        hashes.push(copy_bytes(&app_state.torrents[order[k]].info_hash));
        assert(byte_strings(hashes@) =~= was.push(all[k as int]));
        k = k + 1;
        assert(byte_strings(hashes@) =~= all.take(k as int));
    }
    assert(all.take(k as int) =~= all);
    hashes
}

/// What a search looks at: the name, and where there are any the download path
/// and the container's name, with spaces between.
pub open spec fn haystack(torrent: TorrentDisplayState) -> Seq<char> {
    torrent.torrent_name@ + (match torrent.download_path {
        Some(path) => seq![' '] + path@,
        None => Seq::empty(),
    }) + (match torrent.container_name {
        Some(name) => seq![' '] + name@,
        None => Seq::empty(),
    })
}

/// Whether a torrent is on view for a query.
pub fn torrent_matches_query(
    torrent: &TorrentDisplayState,
    query: &str,
    mode: crate::search::SearchMode,
) -> (found: bool)
    ensures
        found == query_matches(haystack(*torrent), query@, mode),
{
    let mut text = torrent.torrent_name.clone();
    if let Some(path) = &torrent.download_path {
        text.push(' ');
        text.append(path.as_str());
    }
    if let Some(name) = &torrent.container_name {
        text.push(' ');
        text.append(name.as_str());
    }
    assert(text@ =~= haystack(*torrent));
    matches_query(text.as_str(), query, mode)
}

/// Whether the torrent at a position is on view.
pub open spec fn shown(m: ManagementModel, i: int) -> bool {
    query_matches(haystack(m.torrents[i]), trimmed(m.tm.search_query), m.tm.search_mode)
}

/// The torrents on view, in the order of the list.
pub open spec fn visible(m: ManagementModel) -> Seq<usize> {
    kept(listed(m), |i: usize| shown(m, i as int))
}

/// For each torrent, whether the query shows it.
pub fn matching_torrents(app_state: &AppState) -> (flags: Vec<bool>)
    ensures
        flags@.len() == app_state.torrents@.len(),
        forall|i: int|
            0 <= i < flags@.len() ==> #[trigger] flags@[i] == shown(app_state.management(), i),
{
    let query = trim(app_state.ui.torrent_management.search_query.as_str());
    let mode = app_state.ui.torrent_management.search_mode;
    let mut flags: Vec<bool> = Vec::new();
    let mut i: usize = 0;
    while i < app_state.torrents.len()
        invariant
            i <= app_state.torrents@.len(),
            query@ == trimmed(app_state.ui.torrent_management.search_query@),
            mode == app_state.ui.torrent_management.search_mode,
            flags@.len() == i,
            forall|k: int|
                0 <= k < flags@.len() ==> #[trigger] flags@[k] == shown(app_state.management(), k),
        decreases app_state.torrents@.len() - i,
    {
        flags.push(torrent_matches_query(&app_state.torrents[i], query.as_str(), mode));
        i = i + 1;
    }
    flags
}

/// The torrents on view, by position.
pub fn visible_torrents(app_state: &AppState) -> (order: Vec<usize>)
    ensures
        order@ == visible(app_state.management()),
        forall|k: int| 0 <= k < order@.len() ==> #[trigger] order@[k] < app_state.torrents@.len(),
        order@.len() <= app_state.torrents@.len(),
{
    let ghost m = app_state.management();
    let flags = matching_torrents(app_state);
    let all = ordered_torrents(app_state);
    proof {
        kept_agree(all@, |i: usize| flags@[i as int], |i: usize| shown(m, i as int));
    }
    keep_flagged(&all, &flags)
}

/// The hashes of the torrents on view.
pub fn visible_torrent_hashes(app_state: &AppState) -> (hashes: Vec<Vec<u8>>)
    ensures
        byte_strings(hashes@) == listed_hashes(
            app_state.management(),
            visible(app_state.management()),
        ),
        hashes@.len() <= app_state.torrents@.len(),
{
    let order = visible_torrents(app_state);
    hashes_at(app_state, &order)
}

/// The name that the table shows for a torrent.
pub open spec fn label(m: ManagementModel, i: int) -> Seq<char> {
    if m.anonymize {
        m.torrents[i].masked_name@
    } else {
        m.torrents[i].shown_name@
    }
}

pub open spec fn peers(torrent: TorrentDisplayState) -> int {
    max_int(
        torrent.number_of_successfully_connected_peers as int,
        torrent.listed_peers as int,
    )
}

/// The time left, where something is missing and the time is known.
pub open spec fn time_left(torrent: TorrentDisplayState) -> Option<u128> {
    if torrent.completion.incomplete && torrent.eta_nanos > 0 {
        Some(torrent.eta_nanos)
    } else {
        None
    }
}

pub open spec fn state_name(state: TorrentControlState) -> Seq<char> {
    match state {
        TorrentControlState::Deleting => "Deleting"@,
        TorrentControlState::Paused => "Paused"@,
        TorrentControlState::Running => "Running"@,
    }
}

fn control_state_name(state: TorrentControlState) -> (name: &'static str)
    ensures
        name@ == state_name(state),
{
    match state {
        TorrentControlState::Deleting => "Deleting",
        TorrentControlState::Paused => "Paused",
        TorrentControlState::Running => "Running",
    }
}

/// A number by which an optional quantity is ordered; none comes first.
pub open spec fn or_zero(value: Option<u64>) -> int {
    match value {
        Some(n) => n as int,
        None => 0,
    }
}

pub open spec fn or_zero_wide(value: Option<u128>) -> int {
    match value {
        Some(n) => n as int,
        None => 0,
    }
}

/// How far up in a sort by selection the torrent at a position comes.
pub open spec fn selection_rank(m: ManagementModel, i: int) -> int {
    if m.tm.selected_hashes.contains(m.torrents[i].info_hash@) {
        2
    } else {
        0
    }
}

/// How two torrents compare by one column alone.
pub open spec fn by_column(m: ManagementModel, column: ManagementColumnId, i: int, j: int) -> Comparison {
    let a = m.torrents[i];
    let b = m.torrents[j];
    match column {
        ManagementColumnId::Selection => by_number(selection_rank(m, i), selection_rank(m, j)),
        ManagementColumnId::Name => by_text(label(m, i), label(m, j)),
        ManagementColumnId::Completed => by_number(
            a.completion.rank as int,
            b.completion.rank as int,
        ),
        ManagementColumnId::State => by_text(
            state_name(a.torrent_control_state),
            state_name(b.torrent_control_state),
        ),
        ManagementColumnId::DateAdded => by_number(
            or_zero(a.added_at_unix_secs),
            or_zero(b.added_at_unix_secs),
        ),
        ManagementColumnId::Peers => by_number(peers(a), peers(b)),
        ManagementColumnId::DownSpeed => by_number(
            a.smoothed_download_speed_bps as int,
            b.smoothed_download_speed_bps as int,
        ),
        ManagementColumnId::UpSpeed => by_number(
            a.smoothed_upload_speed_bps as int,
            b.smoothed_upload_speed_bps as int,
        ),
        ManagementColumnId::Eta => by_number(
            or_zero_wide(time_left(a)),
            or_zero_wide(time_left(b)),
        ),
        ManagementColumnId::Size => by_number(a.total_size as int, b.total_size as int),
    }
}

/// How two torrents compare in the table: by the sorted column in its direction,
/// and then by name.
pub open spec fn by_sort(m: ManagementModel, column: ManagementColumnId, i: int, j: int) -> Comparison {
    or_by(
        directed(by_column(m, column, i, j), m.tm.sort_direction),
        by_text(label(m, i), label(m, j)),
    )
}

/// The torrents of the rows, from top to bottom.
pub open spec fn row_order(m: ManagementModel) -> Seq<usize> {
    match sort_column(m.tm.sort_column_index) {
        Some(column) => stably_sorted(
            visible(m),
            |a: usize, b: usize| by_sort(m, column, a as int, b as int) == Comparison::Less,
        ),
        None => visible(m),
    }
}

/// The hashes of the rows, from top to bottom.
pub open spec fn row_hashes(m: ManagementModel) -> Seq<Seq<u8>> {
    listed_hashes(m, row_order(m))
}

/// A number by which the completion column and its like are compared.
fn optional_rank(value: Option<u64>) -> (rank: u128)
    ensures
        rank == or_zero(value),
{
    match value {
        Some(n) => n as u128,
        None => 0,
    }
}

fn peer_total(torrent: &TorrentDisplayState) -> (total: usize)
    ensures
        total == peers(*torrent),
{
    if torrent.number_of_successfully_connected_peers >= torrent.listed_peers {
        torrent.number_of_successfully_connected_peers
    } else {
        torrent.listed_peers
    }
}

fn time_left_of(torrent: &TorrentDisplayState) -> (left: Option<u128>)
    ensures
        left == time_left(*torrent),
{
    if torrent.completion.incomplete && torrent.eta_nanos > 0 {
        Some(torrent.eta_nanos)
    } else {
        None
    }
}

fn label_of(app_state: &AppState, i: usize) -> (name: &str)
    requires
        i < app_state.torrents@.len(),
    ensures
        name@ == label(app_state.management(), i as int),
{
    if app_state.anonymize_torrent_names {
        app_state.torrents[i].masked_name.as_str()
    } else {
        app_state.torrents[i].shown_name.as_str()
    }
}

/// How the rows of two torrents compare.
pub fn compare_management_rows(
    app_state: &AppState,
    column: ManagementColumnId,
    i: usize,
    j: usize,
) -> (c: Comparison)
    requires
        i < app_state.torrents@.len(),
        j < app_state.torrents@.len(),
    ensures
        c == by_sort(app_state.management(), column, i as int, j as int),
{
    let a = &app_state.torrents[i];
    let b = &app_state.torrents[j];
    let names = compare_texts(label_of(app_state, i), label_of(app_state, j));
    let primary = match column {
        ManagementColumnId::Selection => {
            let selected = &app_state.ui.torrent_management.selected_hashes;
            let left: u128 = if holds_bytes(selected, &a.info_hash) {
                2
            } else {
                0
            };
            let right: u128 = if holds_bytes(selected, &b.info_hash) {
                2
            } else {
                0
            };
            compare_numbers(left, right)
        },
        ManagementColumnId::Name => names,
        ManagementColumnId::Completed => compare_numbers(
            a.completion.rank as u128,
            b.completion.rank as u128,
        ),
        ManagementColumnId::State => compare_texts(
            control_state_name(a.torrent_control_state),
            control_state_name(b.torrent_control_state),
        ),
        ManagementColumnId::DateAdded => compare_numbers(
            optional_rank(a.added_at_unix_secs),
            optional_rank(b.added_at_unix_secs),
        ),
        ManagementColumnId::Peers => compare_numbers(peer_total(a) as u128, peer_total(b) as u128),
        ManagementColumnId::DownSpeed => compare_numbers(
            a.smoothed_download_speed_bps as u128,
            b.smoothed_download_speed_bps as u128,
        ),
        ManagementColumnId::UpSpeed => compare_numbers(
            a.smoothed_upload_speed_bps as u128,
            b.smoothed_upload_speed_bps as u128,
        ),
        ManagementColumnId::Eta => {
            let left: u128 = time_left_of(a).unwrap_or(0);
            let right: u128 = time_left_of(b).unwrap_or(0);
            compare_numbers(left, right)
        },
        ManagementColumnId::Size => compare_numbers(a.total_size as u128, b.total_size as u128),
    };
    break_tie(apply_sort_direction(primary, app_state.ui.torrent_management.sort_direction), names)
}

pub struct TableOrder<'a> {
    pub state: &'a AppState,
    pub column: ManagementColumnId,
}

impl<'a> Precedence<usize> for TableOrder<'a> {
    open spec fn precedes(&self, a: usize, b: usize) -> bool {
        by_sort(self.state.management(), self.column, a as int, b as int) == Comparison::Less
    }

    open spec fn knows(&self, a: usize) -> bool {
        a < self.state.torrents@.len()
    }

    fn goes_before(&self, a: &usize, b: &usize) -> (before: bool) {
        compare_management_rows(self.state, self.column, *a, *b) == Comparison::Less
    }
}

/// The rows show torrents that are on view, each once.
pub proof fn row_order_is_visible(m: ManagementModel)
    requires
        m.torrents.len() <= usize::MAX,
    ensures
        row_order(m).len() == visible(m).len(),
        row_order(m).to_multiset() == visible(m).to_multiset(),
        forall|k: int|
            0 <= k < row_order(m).len() ==> #[trigger] row_order(m)[k] < m.torrents.len(),
{
    broadcast use vstd::seq_lib::group_to_multiset_ensures;

    let shown_rows = visible(m);
    if let Some(column) = sort_column(m.tm.sort_column_index) {
        stably_sorted_keeps_items(
            shown_rows,
            |a: usize, b: usize| by_sort(m, column, a as int, b as int) == Comparison::Less,
        );
    }
    listed_positions_are_known(m);
    kept_contains(listed(m), |i: usize| shown(m, i as int));
    let out = row_order(m);
    assert forall|k: int| 0 <= k < out.len() implies #[trigger] out[k] < m.torrents.len() by {
        assert(out.contains(out[k]));
        assert(out.to_multiset().count(out[k]) > 0);
        assert(shown_rows.to_multiset().count(out[k]) > 0);
        assert(shown_rows.contains(out[k]));
        assert(listed(m).contains(out[k]));
        let j = choose|j: int| 0 <= j < listed(m).len() && listed(m)[j] == out[k];
        assert(listed(m)[j] < m.torrents.len());
    }
}

/// The torrents of the rows, by position.
pub fn management_row_order(app_state: &AppState) -> (order: Vec<usize>)
    ensures
        order@ == row_order(app_state.management()),
        forall|k: int| 0 <= k < order@.len() ==> #[trigger] order@[k] < app_state.torrents@.len(),
        order@.len() <= app_state.torrents@.len(),
{
    let on_view = visible_torrents(app_state);
    let ghost m = app_state.management();
    proof {
        assert(app_state.torrents.len() <= usize::MAX);
        row_order_is_visible(m);
    }
    match management_sort_column(app_state) {
        Some(column) => {
            let by_table = TableOrder { state: app_state, column };
            let order = stable_sort(&on_view, &by_table);
            proof {
                let before = |a: usize, b: usize|
                    by_sort(m, column, a as int, b as int) == Comparison::Less;
                assert(order_of::<usize, TableOrder>(&by_table) =~= before);
            }
            order
        },
        None => on_view,
    }
}

/// Whether a state label is that of some torrents: none, one that is being
/// deleted, torrents of different states, or all of one state.
pub open spec fn states_label(count: int, running: bool, paused: bool, deleting: bool) -> Seq<char> {
    if count == 0 {
        "-"@
    } else if deleting {
        "Deleting"@
    } else if running && paused {
        "Mixed"@
    } else if paused {
        "Paused"@
    } else {
        "Running"@
    }
}

/// The label for the states that some torrents are in.
pub fn aggregate_state_label(count: usize, running: bool, paused: bool, deleting: bool) -> (text:
    String)
    ensures
        text@ == states_label(count as int, running, paused, deleting),
{
    if count == 0 {
        return owned("-");
    }
    if deleting {
        return owned("Deleting");
    }
    if running && paused {
        return owned("Mixed");
    }
    if paused {
        owned("Paused")
    } else {
        owned("Running")
    }
}

/// Sums and extremes over some torrents.
#[verifier::ext_equal]
pub struct Totals {
    pub count: int,
    pub peers: int,
    pub download_bps: int,
    pub upload_bps: int,
    pub total_size: int,
    pub added_at: Option<u64>,
    pub eta: int,
    pub incomplete: bool,
    pub running: bool,
    pub paused: bool,
    pub deleting: bool,
}

pub open spec fn capped(n: int) -> int {
    if n > u64::MAX {
        u64::MAX as int
    } else {
        n
    }
}

pub open spec fn later(a: Option<u64>, b: Option<u64>) -> Option<u64> {
    match (a, b) {
        (Some(x), Some(y)) => if x >= y {
            a
        } else {
            b
        },
        (None, _) => b,
        (_, None) => a,
    }
}

/// Sums and extremes over the torrents of some hashes; hashes of no torrent do
/// not count. Speeds and sizes stop at the largest number.
pub open spec fn totals(torrents: Seq<TorrentDisplayState>, hashes: Seq<Seq<u8>>) -> Totals
    decreases hashes.len(),
{
    if hashes.len() == 0 {
        Totals {
            count: 0,
            peers: 0,
            download_bps: 0,
            upload_bps: 0,
            total_size: 0,
            added_at: None,
            eta: 0,
            incomplete: false,
            running: false,
            paused: false,
            deleting: false,
        }
    } else {
        let sum = totals(torrents, hashes.drop_last());
        match find(torrents, hashes.last()) {
            None => sum,
            Some(i) => {
                let t = torrents[i];
                Totals {
                    count: sum.count + 1,
                    peers: sum.peers + peers(t),
                    download_bps: capped(sum.download_bps + t.smoothed_download_speed_bps),
                    upload_bps: capped(sum.upload_bps + t.smoothed_upload_speed_bps),
                    total_size: capped(sum.total_size + t.total_size),
                    added_at: later(sum.added_at, t.added_at_unix_secs),
                    eta: if t.completion.incomplete {
                        max_int(sum.eta, t.eta_nanos as int)
                    } else {
                        sum.eta
                    },
                    incomplete: sum.incomplete || t.completion.incomplete,
                    running: sum.running || t.torrent_control_state == TorrentControlState::Running,
                    paused: sum.paused || t.torrent_control_state == TorrentControlState::Paused,
                    deleting: sum.deleting || t.torrent_control_state
                        == TorrentControlState::Deleting,
                }
            },
        }
    }
}

/// Counting more torrents never lowers the number of peers.
proof fn totals_grow(torrents: Seq<TorrentDisplayState>, hashes: Seq<Seq<u8>>, n: int)
    requires
        0 <= n <= hashes.len(),
    ensures
        0 <= totals(torrents, hashes.take(n)).peers <= totals(torrents, hashes).peers,
    decreases hashes.len(),
{
    if n == hashes.len() {
        assert(hashes.take(n) =~= hashes);
        if n > 0 {
            totals_grow(torrents, hashes.drop_last(), n - 1);
            assert(hashes.drop_last().take(n - 1) =~= hashes.drop_last());
        }
    } else {
        totals_grow(torrents, hashes.drop_last(), n);
        assert(hashes.drop_last().take(n) =~= hashes.take(n));
    }
}

/// Whether a row's quantities are those of some torrents.
pub open spec fn metrics_of(metrics: RowMetrics, sum: Totals) -> bool {
    &&& metrics.count == sum.count
    &&& metrics.state_label@ == states_label(sum.count, sum.running, sum.paused, sum.deleting)
    &&& metrics.peer_count == sum.peers
    &&& metrics.download_bps == sum.download_bps
    &&& metrics.upload_bps == sum.upload_bps
    &&& metrics.eta_nanos == if sum.incomplete && sum.eta > 0 {
        Some(sum.eta as u128)
    } else {
        None
    }
    &&& metrics.total_size == sum.total_size
    &&& metrics.added_at_unix_secs == sum.added_at
}

/// The quantities of some torrents together.
pub fn aggregate_metrics_for_hashes(app_state: &AppState, hashes: &Vec<Vec<u8>>) -> (metrics:
    RowMetrics)
    requires
        totals(app_state.torrents@, byte_strings(hashes@)).peers <= usize::MAX,
    ensures
        metrics_of(metrics, totals(app_state.torrents@, byte_strings(hashes@))),
{
    let ghost torrents = app_state.torrents@;
    let ghost all = byte_strings(hashes@);
    let mut count: usize = 0;
    let mut peer_count: usize = 0;
    let mut download_bps: u64 = 0;
    let mut upload_bps: u64 = 0;
    let mut total_size: u64 = 0;
    let mut added_at: Option<u64> = None;
    let mut max_eta: u128 = 0;
    let mut any_incomplete = false;
    let mut running = false;
    let mut paused = false;
    let mut deleting = false;
    let mut k: usize = 0;
    while k < hashes.len()
        invariant
            k <= hashes@.len(),
            all == byte_strings(hashes@),
            torrents == app_state.torrents@,
            totals(torrents, all).peers <= usize::MAX,
            count <= k,
            totals(torrents, all.take(k as int)) == (Totals {
                count: count as int,
                peers: peer_count as int,
                download_bps: download_bps as int,
                upload_bps: upload_bps as int,
                total_size: total_size as int,
                added_at,
                eta: max_eta as int,
                incomplete: any_incomplete,
                running,
                paused,
                deleting,
            }),
        decreases hashes@.len() - k,
    {
        proof {
            assert(all.take(k + 1).drop_last() =~= all.take(k as int));
            totals_grow(torrents, all, k + 1);
        }
        if let Some(i) = find_torrent(&app_state.torrents, &hashes[k]) {
            let torrent = &app_state.torrents[i];
            count = count + 1;
            peer_count = peer_count + peer_total(torrent);
            download_bps = download_bps.saturating_add(torrent.smoothed_download_speed_bps);
            upload_bps = upload_bps.saturating_add(torrent.smoothed_upload_speed_bps);
            total_size = total_size.saturating_add(torrent.total_size);
            added_at =
            match (added_at, torrent.added_at_unix_secs) {
                (Some(x), Some(y)) => if x >= y {
                    Some(x)
                } else {
                    Some(y)
                },
                (None, latest) => latest,
                (latest, None) => latest,
            };
            match torrent.torrent_control_state {
                TorrentControlState::Running => {
                    running = true;
                },
                TorrentControlState::Paused => {
                    paused = true;
                },
                TorrentControlState::Deleting => {
                    deleting = true;
                },
            }
            if torrent.completion.incomplete {
                any_incomplete = true;
                if torrent.eta_nanos > max_eta {
                    max_eta = torrent.eta_nanos;
                }
            }
        }
        k = k + 1;
    }
    assert(all.take(k as int) =~= all);
    RowMetrics {
        count,
        state_label: aggregate_state_label(count, running, paused, deleting),
        peer_count,
        download_bps,
        upload_bps,
        eta_nanos: if any_incomplete && max_eta > 0 {
            Some(max_eta)
        } else {
            None
        },
        total_size,
        added_at_unix_secs: added_at,
    }
}

/// Whether a row is that of the torrent at a position.
pub open spec fn is_row_of(row: ManagementRow, m: ManagementModel, i: int, depth: int) -> bool {
    let t = m.torrents[i];
    &&& row.kind == ManagementRowKind::Torrent
    &&& row.label@ == label(m, i)
    &&& byte_strings(row.info_hashes@) == seq![t.info_hash@]
    &&& row.depth == depth
    &&& row.completed_rank == t.completion.rank
    &&& row.metrics.count == 1
    &&& row.metrics.state_label@ == state_name(t.torrent_control_state)
    &&& row.metrics.peer_count == peers(t)
    &&& row.metrics.download_bps == t.smoothed_download_speed_bps
    &&& row.metrics.upload_bps == t.smoothed_upload_speed_bps
    &&& row.metrics.eta_nanos == time_left(t)
    &&& row.metrics.total_size == t.total_size
    &&& row.metrics.added_at_unix_secs == t.added_at_unix_secs
}

/// The row of the torrent with a hash.
pub fn torrent_row(app_state: &AppState, info_hash: &Vec<u8>, depth: usize) -> (row: Option<
    ManagementRow,
>)
    ensures
        row is Some <==> app_state.management().is_live(info_hash@),
        row matches Some(row) ==> is_row_of(
            row,
            app_state.management(),
            find(app_state.torrents@, info_hash@).unwrap(),
            depth as int,
        ),
{
    let i = match find_torrent(&app_state.torrents, info_hash) {
        Some(i) => i,
        None => {
            return None;
        },
    };
    let mut info_hashes: Vec<Vec<u8>> = Vec::new();
    info_hashes.push(copy_bytes(info_hash));
    proof {
        let all = byte_strings(info_hashes@);
        assert(all =~= seq![info_hash@]);
        assert(all.drop_last() =~= Seq::<Seq<u8>>::empty());
        reveal_with_fuel(totals, 2);
    }
    let metrics = aggregate_metrics_for_hashes(app_state, &info_hashes);
    Some(
        ManagementRow {
            kind: ManagementRowKind::Torrent,
            label: owned(label_of(app_state, i)),
            info_hashes,
            depth,
            completed_rank: app_state.torrents[i].completion.rank,
            metrics,
        },
    )
}

/// Whether some rows are the rows of the table.
pub open spec fn are_rows(rows: Seq<ManagementRow>, m: ManagementModel) -> bool {
    &&& rows.len() == row_order(m).len()
    &&& forall|k: int|
        0 <= k < rows.len() ==> is_row_of(#[trigger] rows[k], m, row_order(m)[k] as int, 0)
}

/// The rows of the table, from top to bottom.
pub fn build_management_rows(app_state: &AppState) -> (rows: Vec<ManagementRow>)
    requires
        app_state.well_formed(),
    ensures
        are_rows(rows@, app_state.management()),
        rows@.len() <= app_state.torrents@.len(),
{
    let ghost m = app_state.management();
    let order = management_row_order(app_state);
    let mut rows: Vec<ManagementRow> = Vec::new();
    let mut k: usize = 0;
    while k < order.len()
        invariant
            k <= order@.len(),
            m == app_state.management(),
            app_state.well_formed(),
            order@ == row_order(m),
            forall|k: int|
                0 <= k < order@.len() ==> #[trigger] order@[k] < app_state.torrents@.len(),
            rows@.len() == k,
            forall|k: int|
                0 <= k < rows@.len() ==> is_row_of(#[trigger] rows@[k], m, row_order(m)[k] as int, 0),
        decreases order@.len() - k,
    {
        let i = order[k];
        proof {
            position_of_unique(torrent_hashes(app_state.torrents@), i as int);
            assert(torrent_hashes(app_state.torrents@)[i as int]
                == app_state.torrents@[i as int].info_hash@);
            assert(m.hashes().contains(app_state.torrents@[i as int].info_hash@));
        }
        let row = torrent_row(app_state, &app_state.torrents[i].info_hash, 0).unwrap();
        rows.push(row);
        k = k + 1;
    }
    rows
}

/// How many of some hashes are selected.
pub open spec fn selected_count(hashes: Seq<Seq<u8>>, selected: Seq<Seq<u8>>) -> int
    decreases hashes.len(),
{
    if hashes.len() == 0 {
        0
    } else {
        selected_count(hashes.drop_last(), selected) + if selected.contains(hashes.last()) {
            1int
        } else {
            0
        }
    }
}

pub open spec fn selection_of(hashes: Seq<Seq<u8>>, selected: Seq<Seq<u8>>) -> SelectionState {
    let count = selected_count(hashes, selected);
    if count == 0 {
        SelectionState::Empty
    } else if count == hashes.len() {
        SelectionState::Full
    } else {
        SelectionState::Partial
    }
}

/// How much of a row is selected.
pub fn row_selection_state(app_state: &AppState, row: &ManagementRow) -> (state: SelectionState)
    ensures
        state == selection_of(
            byte_strings(row.info_hashes@),
            app_state.management().tm.selected_hashes,
        ),
{
    let ghost hashes = byte_strings(row.info_hashes@);
    let ghost selected = app_state.management().tm.selected_hashes;
    let mut count: usize = 0;
    let mut k: usize = 0;
    while k < row.info_hashes.len()
        invariant
            k <= row.info_hashes@.len(),
            hashes == byte_strings(row.info_hashes@),
            selected == byte_strings(app_state.ui.torrent_management.selected_hashes@),
            count <= k,
            count == selected_count(hashes.take(k as int), selected),
        decreases row.info_hashes@.len() - k,
    {
        assert(hashes.take(k + 1).drop_last() =~= hashes.take(k as int));
        if holds_bytes(&app_state.ui.torrent_management.selected_hashes, &row.info_hashes[k]) {
            count = count + 1;
        }
        k = k + 1;
    }
    assert(hashes.take(k as int) =~= hashes);
    if count == 0 {
        SelectionState::Empty
    } else if count == row.info_hashes.len() {
        SelectionState::Full
    } else {
        SelectionState::Partial
    }
}

pub open spec fn state_rank(state: SelectionState) -> int {
    match state {
        SelectionState::Empty => 0,
        SelectionState::Partial => 1,
        SelectionState::Full => 2,
    }
}

/// The rank of a row in a sort by selection.
pub fn selection_sort_rank(app_state: &AppState, row: &ManagementRow) -> (rank: usize)
    ensures
        rank == state_rank(
            selection_of(
                byte_strings(row.info_hashes@),
                app_state.management().tm.selected_hashes,
            ),
        ),
{
    match row_selection_state(app_state, row) {
        SelectionState::Empty => 0,
        SelectionState::Partial => 1,
        SelectionState::Full => 2,
    }
}

/// The mark in front of a row: how much of it is selected, and whether something
/// is drafted for it.
pub open spec fn selection_mark(state: SelectionState, drafted: bool) -> Seq<char> {
    match (state, drafted) {
        (SelectionState::Empty, true) => "!"@,
        (SelectionState::Partial, true) => "~!"@,
        (SelectionState::Full, true) => "x!"@,
        (SelectionState::Empty, false) => "-"@,
        (SelectionState::Partial, false) => "~"@,
        (SelectionState::Full, false) => "x"@,
    }
}

/// The mark in front of a row.
pub fn management_selection_marker(
    selected_state: SelectionState,
    has_pending_action: bool,
) -> (mark: &'static str)
    ensures
        mark@ == selection_mark(selected_state, has_pending_action),
{
    if has_pending_action {
        return match selected_state {
            SelectionState::Empty => "!",
            SelectionState::Partial => "~!",
            SelectionState::Full => "x!",
        };
    }
    match selected_state {
        SelectionState::Empty => "-",
        SelectionState::Partial => "~",
        SelectionState::Full => "x",
    }
}

} // verus!
