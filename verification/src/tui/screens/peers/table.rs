//! Which peers are on view, and in which order.
use crate::app::{
    AppState, PeerManagementDerivedState, PeerManagementFilter, PeerScreenView, TorrentDisplayState,
    UiState,
};
use crate::geometry::{min_int, Rect};
use crate::lists::{kept, same_bytes, texts};
use crate::order::{
    apply_sort_direction, break_tie, by_number, by_text, compare_numbers, compare_texts, directed,
    or_by, order_of, reversed, sorting_commutes_with_mapping, stable_sort_owned, stably_sorted,
    Comparison, Precedence, SortDirection,
};
use crate::peer_manager::{
    by_ip, compare_ips, IpAddr, PeerManagerTrackedPeer, PeerRestrictionReason, RestrictedPeer,
};
use crate::search::{
    fuzzy_finds_any_case, fuzzy_match_any_case, is_regex, query_finds, regex_compiles, regex_finds,
    regex_match, SearchMode,
};
use crate::text::{hex_encode, hex_text, join_with, owned, separated, trim, trimmed};
use crate::tui::screens::peers::columns::{peer_column_at, peer_sorted_by, PeerColumnId};
use crate::tui::screens::peers::evidence::{
    by_ratio, compare_evidence_ratio, flag_rank, rank_of_flag,
};
use crate::tui::screens::peers::labels::{
    display_endpoint, display_ip, display_torrent_name, short_info_hash, shown_endpoint, shown_hash,
    shown_ip, shown_torrent,
};
use crate::tui::screens::peers::rows::{
    addresses, build_row, facts_at, known_ips, row_facts, state_rank, state_text, PeerFacts,
    PeerRowModel,
};
use crate::tui::screens::torrents::rows::{capped, find, find_torrent};
use vstd::prelude::*;

verus! {

// ----------------------------------------------------------------- the model

/// Everything that the screen reads.
#[verifier::ext_equal]
pub struct PeerModel {
    pub pm: PeerScreenView,
    pub rows: Seq<PeerFacts>,
    pub next_expiry: Option<u128>,
    pub recomputed: int,
    pub peers: Seq<PeerManagerTrackedPeer>,
    pub restrictions: Seq<RestrictedPeer>,
    pub torrents: Seq<TorrentDisplayState>,
    pub privacy: bool,
    pub screen: Rect,
}

impl PeerModel {
    pub open spec fn with_pm(self, pm: PeerScreenView) -> PeerModel {
        PeerModel { pm, ..self }
    }
}

impl AppState {
    pub open spec fn peers(self) -> PeerModel {
        PeerModel {
            pm: self.ui.peer_management@,
            rows: row_facts(self.peer_management_derived.rows@),
            next_expiry: self.peer_management_derived.next_restriction_expiry,
            recomputed: self.peer_management_derived.recomputed as int,
            peers: self.peer_manager_view.tracked_peers@,
            restrictions: self.peer_policy.restrictions@,
            torrents: self.torrents@,
            privacy: self.anonymize_torrent_names,
            screen: self.screen_area,
        }
    }

    /// The two states differ at most in what belongs to peer management and in
    /// whether names are hidden.
    pub open spec fn same_but_peers(self, other: AppState) -> bool {
        other == (AppState {
            ui: UiState { peer_management: other.ui.peer_management, ..self.ui },
            anonymize_torrent_names: other.anonymize_torrent_names,
            peer_management_derived: other.peer_management_derived,
            ..self
        })
    }
}

// ------------------------------------------------------------ the search text

pub open spec fn reason_text(reason: PeerRestrictionReason) -> Seq<char> {
    match reason {
        PeerRestrictionReason::ExcessiveUpload { .. } => "excessive upload"@,
        PeerRestrictionReason::ExcessiveDownload { .. } => "excessive download"@,
        PeerRestrictionReason::ReconnectChurn { .. } => "reconnect churn"@,
        PeerRestrictionReason::Manual => "manual"@,
    }
}

/// The words under which a restriction is found.
pub fn restriction_reason_search_text(reason: &PeerRestrictionReason) -> (text: &'static str)
    ensures
        text@ == reason_text(*reason),
{
    match reason {
        PeerRestrictionReason::ExcessiveUpload { .. } => "excessive upload",
        PeerRestrictionReason::ExcessiveDownload { .. } => "excessive download",
        PeerRestrictionReason::ReconnectChurn { .. } => "reconnect churn",
        PeerRestrictionReason::Manual => "manual",
    }
}

/// Those records of a row that are still there.
pub open spec fn present_records(peers: Seq<PeerManagerTrackedPeer>, records: Seq<usize>) -> Seq<
    usize,
> {
    kept(records, |i: usize| (i as int) < peers.len())
}

impl PeerRowModel {
    /// Those records of the row that are still there.
    pub fn records(&self, app_state: &AppState) -> (records: Vec<usize>)
        ensures
            records@ == present_records(app_state.peers().peers, self@.records),
            forall|k: int|
                0 <= k < records@.len() ==> #[trigger] records@[k]
                    < app_state.peer_manager_view.tracked_peers@.len(),
            records@.len() <= self.tracked_indices@.len(),
    {
        let ghost peers = app_state.peer_manager_view.tracked_peers@;
        let ghost test = |i: usize| (i as int) < peers.len();
        let mut records: Vec<usize> = Vec::new();
        let mut k: usize = 0;
        assert(self.tracked_indices@.take(0) =~= Seq::<usize>::empty());
        while k < self.tracked_indices.len()
            invariant
                k <= self.tracked_indices@.len(),
                peers == app_state.peer_manager_view.tracked_peers@,
                test == (|i: usize| (i as int) < peers.len()),
                records@ == kept(self.tracked_indices@.take(k as int), test),
                records@.len() <= k,
                forall|k: int| 0 <= k < records@.len() ==> #[trigger] records@[k] < peers.len(),
            decreases self.tracked_indices@.len() - k,
        {
            assert(self.tracked_indices@.take(k + 1).drop_last() =~= self.tracked_indices@.take(
                k as int,
            ));
            let i = self.tracked_indices[k];
            if i < app_state.peer_manager_view.tracked_peers.len() {
                records.push(i);
            }
            k = k + 1;
        }
        assert(self.tracked_indices@.take(k as int) =~= self.tracked_indices@);
        records
    }
}

/// The addresses of a record's endpoints as they are searched.
pub open spec fn endpoint_fields(
    endpoints: Seq<crate::peer_manager::PeerManagerEndpointView>,
    privacy: bool,
) -> Seq<Seq<char>> {
    endpoints.map_values(
        |endpoint: crate::peer_manager::PeerManagerEndpointView|
            if privacy {
                shown_endpoint(endpoint.address@, endpoint.shown_address@, true)
            } else {
                endpoint.address@
            },
    )
}

/// What of a record is searched: the torrent's name and hash, and the endpoints.
pub open spec fn record_fields(peer: PeerManagerTrackedPeer, privacy: bool) -> Seq<Seq<char>> {
    seq![
        if privacy {
            shown_torrent(peer.shown_name@, peer.masked_name@, true)
        } else {
            peer.torrent_name@
        },
        if privacy {
            shown_hash(peer.torrent_info_hash@, true)
        } else {
            hex_text(peer.torrent_info_hash@)
        },
    ] + endpoint_fields(peer.endpoints@, privacy)
}

pub open spec fn records_fields(
    peers: Seq<PeerManagerTrackedPeer>,
    records: Seq<usize>,
    privacy: bool,
) -> Seq<Seq<char>>
    decreases records.len(),
{
    if records.len() == 0 {
        Seq::empty()
    } else {
        records_fields(peers, records.drop_last(), privacy) + record_fields(
            peers[records.last() as int],
            privacy,
        )
    }
}

/// The first of some records that is of a torrent.
pub open spec fn record_of(
    peers: Seq<PeerManagerTrackedPeer>,
    records: Seq<usize>,
    hash: Seq<u8>,
) -> Option<usize>
    decreases records.len(),
{
    if records.len() == 0 {
        None
    } else {
        match record_of(peers, records.drop_last(), hash) {
            Some(i) => Some(i),
            None => if peers[records.last() as int].torrent_info_hash@ == hash {
                Some(records.last())
            } else {
                None
            },
        }
    }
}

/// How a torrent is named beside a peer: by the peer's own record of it, or else
/// by the session's, or else by its hash.
pub open spec fn torrent_label(
    peers: Seq<PeerManagerTrackedPeer>,
    torrents: Seq<TorrentDisplayState>,
    records: Seq<usize>,
    hash: Seq<u8>,
    privacy: bool,
) -> Seq<char> {
    match record_of(peers, present_records(peers, records), hash) {
        Some(i) => shown_torrent(
            peers[i as int].shown_name@,
            peers[i as int].masked_name@,
            privacy,
        ),
        None => match find(torrents, hash) {
            Some(i) => shown_torrent(torrents[i].shown_name@, torrents[i].masked_name@, privacy),
            None => shown_hash(hash, privacy),
        },
    }
}

/// How a torrent is named beside a peer.
pub fn torrent_label_for_hash(app_state: &AppState, row: &PeerRowModel, hash: &Vec<u8>) -> (label:
    String)
    ensures
        label@ == torrent_label(
            app_state.peers().peers,
            app_state.peers().torrents,
            row@.records,
            hash@,
            app_state.peers().privacy,
        ),
{
    let ghost m = app_state.peers();
    let privacy = app_state.anonymize_torrent_names;
    let records = row.records(app_state);
    let mut k: usize = 0;
    assert(records@.take(0) =~= Seq::<usize>::empty());
    while k < records.len()
        invariant
            k <= records@.len(),
            m == app_state.peers(),
            privacy == m.privacy,
            records@ == present_records(m.peers, row@.records),
            forall|k: int|
                0 <= k < records@.len() ==> #[trigger] records@[k]
                    < app_state.peer_manager_view.tracked_peers@.len(),
            record_of(m.peers, records@.take(k as int), hash@) is None,
        decreases records@.len() - k,
    {
        assert(records@.take(k + 1).drop_last() =~= records@.take(k as int));
        let peer = &app_state.peer_manager_view.tracked_peers[records[k]];
        if same_bytes(&peer.torrent_info_hash, hash) {
            proof {
                first_record_stays(m.peers, records@, hash@, k + 1);
            }
            return display_torrent_name(
                peer.shown_name.as_str(),
                peer.masked_name.as_str(),
                privacy,
            );
        }
        k = k + 1;
    }
    assert(records@.take(k as int) =~= records@);
    match find_torrent(&app_state.torrents, hash) {
        Some(i) => display_torrent_name(
            app_state.torrents[i].shown_name.as_str(),
            app_state.torrents[i].masked_name.as_str(),
            privacy,
        ),
        None => short_info_hash(hash, privacy),
    }
}

proof fn first_record_stays(
    peers: Seq<PeerManagerTrackedPeer>,
    records: Seq<usize>,
    hash: Seq<u8>,
    n: int,
)
    requires
        0 <= n <= records.len(),
        record_of(peers, records.take(n), hash) is Some,
    ensures
        record_of(peers, records, hash) == record_of(peers, records.take(n), hash),
    decreases records.len() - n,
{
    if n < records.len() {
        assert(records.take(n + 1).drop_last() =~= records.take(n));
        first_record_stays(peers, records, hash, n + 1);
    } else {
        assert(records.take(n) =~= records);
    }
}

/// What of a restriction is searched.
pub open spec fn restriction_fields(
    peers: Seq<PeerManagerTrackedPeer>,
    torrents: Seq<TorrentDisplayState>,
    row: PeerFacts,
    privacy: bool,
) -> Seq<Seq<char>> {
    match row.restriction {
        None => Seq::empty(),
        Some(restriction) => seq![reason_text(restriction.reason)] + (
        match restriction.torrent_info_hash {
            None => Seq::empty(),
            Some(hash) => if privacy {
                seq![
                    shown_hash(hash, true),
                    torrent_label(peers, torrents, row.records, hash, true),
                ]
            } else {
                match find(torrents, hash) {
                    Some(i) => seq![hex_text(hash), torrents[i].torrent_name@],
                    None => seq![hex_text(hash)],
                }
            },
        }),
    }
}

/// What a search looks at in a row, one field per line. While identities are
/// masked it sees only the masks.
pub open spec fn search_text(
    peers: Seq<PeerManagerTrackedPeer>,
    torrents: Seq<TorrentDisplayState>,
    row: PeerFacts,
    privacy: bool,
) -> Seq<char> {
    separated(
        seq![shown_ip(row.ip, privacy), state_text(row), row.client] + records_fields(
            peers,
            present_records(peers, row.records),
            privacy,
        ) + restriction_fields(peers, torrents, row, privacy),
        "\n"@,
    )
}

fn push_text(fields: &mut Vec<String>, text: String)
    ensures
        texts(final(fields)@) == texts(old(fields)@).push(text@),
{
    let ghost was = texts(fields@);
    let ghost view = text@;
    fields.push(text);
    assert(texts(fields@) =~= was.push(view));
}

#[verifier::loop_isolation(false)]
fn push_record_fields(fields: &mut Vec<String>, peer: &PeerManagerTrackedPeer, privacy: bool)
    ensures
        texts(final(fields)@) == texts(old(fields)@) + record_fields(*peer, privacy),
{
    let ghost base = texts(fields@);
    let name = if privacy {
        display_torrent_name(peer.shown_name.as_str(), peer.masked_name.as_str(), true)
    } else {
        peer.torrent_name.clone()
    };
    push_text(fields, name);
    let hash = if privacy {
        short_info_hash(&peer.torrent_info_hash, true)
    } else {
        hex_encode(&peer.torrent_info_hash)
    };
    push_text(fields, hash);
    let ghost head = texts(fields@);
    let ghost all = endpoint_fields(peer.endpoints@, privacy);
    let mut k: usize = 0;
    assert(head + all.take(0) =~= head);
    while k < peer.endpoints.len()
        invariant
            k <= peer.endpoints@.len(),
            texts(fields@) == head + all.take(k as int),
        decreases peer.endpoints@.len() - k,
    {
        let endpoint = &peer.endpoints[k];
        let address = if privacy {
            display_endpoint(endpoint.address.as_str(), endpoint.shown_address.as_str(), true)
        } else {
            endpoint.address.clone()
        };
        push_text(fields, address);
        assert(all.take(k + 1) =~= all.take(k as int).push(all[k as int]));
        assert(head + all.take(k + 1) =~= (head + all.take(k as int)).push(all[k as int]));
        k = k + 1;
    }
    assert(all.take(k as int) =~= all);
    assert(texts(fields@) =~= base + record_fields(*peer, privacy));
}

/// What a search looks at in a row.
#[verifier::loop_isolation(false)]
pub fn peer_search_text(row: &PeerRowModel, app_state: &AppState) -> (text: String)
    ensures
        text@ == search_text(
            app_state.peers().peers,
            app_state.peers().torrents,
            row@,
            app_state.peers().privacy,
        ),
{
    let ghost m = app_state.peers();
    let privacy = app_state.anonymize_torrent_names;
    let mut fields: Vec<String> = Vec::new();
    push_text(&mut fields, display_ip(row.ip, privacy));
    push_text(&mut fields, owned(row.state_label()));
    push_text(&mut fields, row.client_label.clone());
    let ghost head = texts(fields@);
    assert(head =~= seq![shown_ip(row.ip, privacy), state_text(row@), row@.client]);
    let records = row.records(app_state);
    let mut k: usize = 0;
    assert(records@.take(0) =~= Seq::<usize>::empty());
    assert(head + records_fields(m.peers, records@.take(0), privacy) =~= head);
    while k < records.len()
        invariant
            k <= records@.len(),
            texts(fields@) == head + records_fields(m.peers, records@.take(k as int), privacy),
        decreases records@.len() - k,
    {
        assert(records@.take(k + 1).drop_last() =~= records@.take(k as int));
        let ghost was = records_fields(m.peers, records@.take(k as int), privacy);
        let peer = &app_state.peer_manager_view.tracked_peers[records[k]];
        push_record_fields(&mut fields, peer, privacy);
        assert(head + was + record_fields(*peer, privacy) =~= head + (was + record_fields(
            *peer,
            privacy,
        )));
        k = k + 1;
    }
    assert(records@.take(k as int) =~= records@);
    let ghost upper = texts(fields@);
    let ghost more = restriction_fields(m.peers, m.torrents, row@, privacy);
    if let Some(restriction) = &row.restriction {
        push_text(&mut fields, owned(restriction_reason_search_text(&restriction.reason)));
        if let Some(hash) = &restriction.torrent_info_hash {
            if privacy {
                push_text(&mut fields, short_info_hash(hash, true));
                push_text(&mut fields, torrent_label_for_hash(app_state, row, hash));
            } else {
                push_text(&mut fields, hex_encode(hash));
                if let Some(i) = find_torrent(&app_state.torrents, hash) {
                    push_text(&mut fields, app_state.torrents[i].torrent_name.clone());
                }
            }
        }
    }
    assert(texts(fields@) =~= upper + more);
    assert(texts(fields@) =~= fields@.map_values(|item: String| item@));
    join_with(&fields, "\n")
}

// ----------------------------------------------------------------- on view

/// Whether a row is one of those that a filter shows. A blocked peer is neither
/// active nor recent.
pub open spec fn passes_filter(row: PeerFacts, filter: PeerManagementFilter) -> bool {
    match filter {
        PeerManagementFilter::All => true,
        PeerManagementFilter::Active => row.is_active && row.restriction is None,
        PeerManagementFilter::Recent => !row.is_active && row.restriction is None,
        PeerManagementFilter::Restricted => row.restriction is Some,
    }
}

/// Whether a row is one of those that a filter shows.
pub fn peer_matches_filter(row: &PeerRowModel, filter: PeerManagementFilter) -> (passes: bool)
    ensures
        passes == passes_filter(row@, filter),
{
    match filter {
        PeerManagementFilter::All => true,
        PeerManagementFilter::Active => row.is_active() && !row.is_restricted(),
        PeerManagementFilter::Recent => !row.is_active() && !row.is_restricted(),
        PeerManagementFilter::Restricted => row.is_restricted(),
    }
}

/// Every peer passes exactly one of the three narrower filters.
pub proof fn filters_divide_the_peers(row: PeerFacts)
    ensures
        passes_filter(row, PeerManagementFilter::All),
        passes_filter(row, PeerManagementFilter::Restricted) ==> !passes_filter(
            row,
            PeerManagementFilter::Active,
        ) && !passes_filter(row, PeerManagementFilter::Recent),
        !passes_filter(row, PeerManagementFilter::Restricted) ==> (passes_filter(
            row,
            PeerManagementFilter::Active,
        ) <==> !passes_filter(row, PeerManagementFilter::Recent)),
{
}

/// Whether a text is on view for a query; letter case never counts.
pub open spec fn peer_query_matches(text: Seq<char>, query: Seq<char>, mode: SearchMode) -> bool {
    let trimmed_query = trimmed(query);
    trimmed_query.len() == 0 || query_finds(
        mode,
        fuzzy_finds_any_case(text, trimmed_query),
        regex_finds(trimmed_query, text),
    )
}

/// Whether a text is on view for a query.
pub fn peer_matches_query(text: &str, query: &str, mode: SearchMode) -> (found: bool)
    ensures
        found == peer_query_matches(text@, query@, mode),
{
    let query = trim(query);
    if query.as_str().is_empty() {
        return true;
    }
    match mode {
        SearchMode::Fuzzy => fuzzy_match_any_case(text, query.as_str()),
        SearchMode::Regex => regex_match(query.as_str(), text),
    }
}

/// What is wrong with a query: a regular expression that is none.
pub open spec fn query_error(query: Seq<char>, mode: SearchMode) -> bool {
    trimmed(query).len() > 0 && mode == SearchMode::Regex && !is_regex(trimmed(query))
}

/// What is wrong with a query.
pub fn search_error(query: &str, mode: SearchMode) -> (message: Option<String>)
    ensures
        message is Some <==> query_error(query@, mode),
        message matches Some(text) ==> text@ == "Invalid regular expression"@,
{
    let query = trim(query);
    if query.as_str().is_empty() || mode == SearchMode::Fuzzy {
        return None;
    }
    if regex_compiles(query.as_str()) {
        None
    } else {
        Some(owned("Invalid regular expression"))
    }
}

/// Whether a row is on view.
pub open spec fn on_view(m: PeerModel, row: PeerFacts) -> bool {
    passes_filter(row, m.pm.filter) && peer_query_matches(
        search_text(m.peers, m.torrents, row, m.privacy),
        m.pm.search_query,
        m.pm.search_mode,
    )
}

// ------------------------------------------------------------------ in order

/// A number by which the last sign of a peer is ordered; none comes first.
pub open spec fn seen_rank(moment: Option<u128>) -> int {
    match moment {
        Some(moment) => moment as int,
        None => -1,
    }
}

fn compare_seen(a: Option<u128>, b: Option<u128>) -> (c: Comparison)
    ensures
        c == by_number(seen_rank(a), seen_rank(b)),
{
    match (a, b) {
        (Some(x), Some(y)) => compare_numbers(x, y),
        (Some(_), None) => Comparison::Greater,
        (None, Some(_)) => Comparison::Less,
        (None, None) => Comparison::Equal,
    }
}

pub open spec fn by_seen(a: PeerFacts, b: PeerFacts) -> Comparison {
    by_number(seen_rank(a.last_seen), seen_rank(b.last_seen))
}

pub open spec fn by_restricted(a: PeerFacts, b: PeerFacts) -> Comparison {
    by_number(flag_rank(a.restriction is Some), flag_rank(b.restriction is Some))
}

/// How two rows compare by one column alone.
pub open spec fn by_peer_column(column: PeerColumnId, a: PeerFacts, b: PeerFacts) -> Comparison {
    match column {
        PeerColumnId::State => by_number(state_rank(a), state_rank(b)),
        PeerColumnId::Address => by_ip(a.ip, b.ip),
        PeerColumnId::Torrents => by_number(a.torrent_count, b.torrent_count),
        PeerColumnId::Client => by_text(a.client, b.client),
        PeerColumnId::Connects => by_number(a.connections, b.connections),
        PeerColumnId::Disconnects => by_number(a.disconnects, b.disconnects),
        PeerColumnId::Downloaded => by_number(a.downloaded, b.downloaded),
        PeerColumnId::Uploaded => by_number(a.uploaded, b.uploaded),
        PeerColumnId::Evidence => by_ratio(a.evidence, b.evidence),
        PeerColumnId::LastSeen => by_seen(a, b),
    }
}

/// How two rows compare without a sorted column: blocked peers first, then by
/// evidence, activity and last sign, the most first, and then by address.
pub open spec fn by_default(a: PeerFacts, b: PeerFacts) -> Comparison {
    or_by(
        reversed(
            or_by(
                or_by(
                    or_by(by_restricted(a, b), by_ratio(a.evidence, b.evidence)),
                    by_number(flag_rank(a.is_active), flag_rank(b.is_active)),
                ),
                by_seen(a, b),
            ),
        ),
        by_ip(a.ip, b.ip),
    )
}

/// How two rows compare: by the sorted column in its direction, then by the last
/// sign, the newest first, and then by address. In a sort by state blocked peers
/// come first in both directions.
pub open spec fn peer_comparison(
    column: Option<PeerColumnId>,
    direction: SortDirection,
    a: PeerFacts,
    b: PeerFacts,
) -> Comparison {
    match column {
        None => by_default(a, b),
        Some(column) => {
            let sorted = directed(by_peer_column(column, a, b), direction);
            let first = if column == PeerColumnId::State {
                or_by(by_restricted(b, a), sorted)
            } else {
                sorted
            };
            let second = if column == PeerColumnId::LastSeen {
                first
            } else {
                or_by(first, by_seen(b, a))
            };
            or_by(second, by_ip(a.ip, b.ip))
        },
    }
}

fn compare_restricted(left: &PeerRowModel, right: &PeerRowModel) -> (c: Comparison)
    ensures
        c == by_restricted(left@, right@),
{
    compare_numbers(rank_of_flag(left.is_restricted()), rank_of_flag(right.is_restricted()))
}

fn reverse(c: Comparison) -> (other: Comparison)
    ensures
        other == reversed(c),
{
    match c {
        Comparison::Less => Comparison::Greater,
        Comparison::Equal => Comparison::Equal,
        Comparison::Greater => Comparison::Less,
    }
}

/// How two rows compare without a sorted column.
pub fn default_peer_order(left: &PeerRowModel, right: &PeerRowModel) -> (c: Comparison)
    ensures
        c == by_default(left@, right@),
{
    let values = break_tie(
        break_tie(
            break_tie(
                compare_restricted(left, right),
                compare_evidence_ratio(&left.strongest_evidence, &right.strongest_evidence),
            ),
            compare_numbers(rank_of_flag(left.is_active()), rank_of_flag(right.is_active())),
        ),
        compare_seen(left.last_seen, right.last_seen),
    );
    break_tie(reverse(values), compare_ips(left.ip, right.ip))
}

/// How two rows compare.
pub fn compare_peer_rows(
    column: Option<PeerColumnId>,
    direction: SortDirection,
    left: &PeerRowModel,
    right: &PeerRowModel,
) -> (c: Comparison)
    ensures
        c == peer_comparison(column, direction, left@, right@),
{
    let column = match column {
        Some(column) => column,
        None => {
            return default_peer_order(left, right);
        },
    };
    let by_column = match column {
        PeerColumnId::State => compare_numbers(
            left.state_sort_rank() as u128,
            right.state_sort_rank() as u128,
        ),
        PeerColumnId::Address => compare_ips(left.ip, right.ip),
        PeerColumnId::Torrents => compare_numbers(
            left.torrent_count as u128,
            right.torrent_count as u128,
        ),
        PeerColumnId::Client => compare_texts(
            left.client_label.as_str(),
            right.client_label.as_str(),
        ),
        PeerColumnId::Connects => compare_numbers(
            left.connection_count as u128,
            right.connection_count as u128,
        ),
        PeerColumnId::Disconnects => compare_numbers(
            left.disconnect_count as u128,
            right.disconnect_count as u128,
        ),
        PeerColumnId::Downloaded => compare_numbers(
            left.total_downloaded_bytes as u128,
            right.total_downloaded_bytes as u128,
        ),
        PeerColumnId::Uploaded => compare_numbers(
            left.total_uploaded_bytes as u128,
            right.total_uploaded_bytes as u128,
        ),
        PeerColumnId::Evidence => compare_evidence_ratio(
            &left.strongest_evidence,
            &right.strongest_evidence,
        ),
        PeerColumnId::LastSeen => compare_seen(left.last_seen, right.last_seen),
    };
    let sorted = apply_sort_direction(by_column, direction);
    let first = if column == PeerColumnId::State {
        break_tie(compare_restricted(right, left), sorted)
    } else {
        sorted
    };
    let second = if column == PeerColumnId::LastSeen {
        first
    } else {
        break_tie(first, compare_seen(right.last_seen, left.last_seen))
    };
    break_tie(second, compare_ips(left.ip, right.ip))
}

pub struct PeerOrder {
    pub column: Option<PeerColumnId>,
    pub direction: SortDirection,
}

impl Precedence<PeerRowModel> for PeerOrder {
    open spec fn precedes(&self, a: PeerRowModel, b: PeerRowModel) -> bool {
        peer_comparison(self.column, self.direction, a@, b@) == Comparison::Less
    }

    open spec fn knows(&self, a: PeerRowModel) -> bool {
        true
    }

    fn goes_before(&self, a: &PeerRowModel, b: &PeerRowModel) -> (before: bool) {
        compare_peer_rows(self.column, self.direction, a, b) == Comparison::Less
    }
}

/// What is known of every known address.
pub open spec fn all_facts(m: PeerModel, now: u128) -> Seq<PeerFacts> {
    known_ips(m.peers, m.restrictions, now).map_values(
        |ip: IpAddr| facts_at(m.peers, m.restrictions, ip, now),
    )
}

/// The order of the table.
pub open spec fn table_order(m: PeerModel) -> spec_fn(PeerFacts, PeerFacts) -> bool {
    let column = peer_sorted_by(m.pm.sort_column_index);
    let direction = m.pm.sort_direction;
    |a: PeerFacts, b: PeerFacts| peer_comparison(column, direction, a, b) == Comparison::Less
}

/// The rows of the table at a moment, from top to bottom.
pub open spec fn peer_rows(m: PeerModel, now: u128) -> Seq<PeerFacts> {
    stably_sorted(kept(all_facts(m, now), |row: PeerFacts| on_view(m, row)), table_order(m))
}

/// The column that the rows are sorted by.
pub fn peer_sort_column(app_state: &AppState) -> (column: Option<PeerColumnId>)
    ensures
        column == peer_sorted_by(app_state.ui.peer_management.sort_column_index),
{
    peer_column_at(app_state.ui.peer_management.sort_column_index)
}

/// Works the rows of the table out for a moment.
pub fn build_peer_rows_at(app_state: &AppState, now: u128) -> (rows: Vec<PeerRowModel>)
    ensures
        row_facts(rows@) == peer_rows(app_state.peers(), now),
{
    let ghost m = app_state.peers();
    let ghost all = all_facts(m, now);
    let ghost test = |row: PeerFacts| on_view(m, row);
    let peers = &app_state.peer_manager_view.tracked_peers;
    let restrictions = &app_state.peer_policy.restrictions;
    let ips = addresses(peers, restrictions, now);
    let mut rows: Vec<PeerRowModel> = Vec::new();
    let mut k: usize = 0;
    assert(all.take(0) =~= Seq::<PeerFacts>::empty());
    assert(row_facts(rows@) =~= Seq::<PeerFacts>::empty());
    while k < ips.len()
        invariant
            k <= ips@.len(),
            m == app_state.peers(),
            peers@ == m.peers,
            restrictions@ == m.restrictions,
            ips@ == known_ips(m.peers, m.restrictions, now),
            all == all_facts(m, now),
            test == (|row: PeerFacts| on_view(m, row)),
            row_facts(rows@) == kept(all.take(k as int), test),
        decreases ips@.len() - k,
    {
        assert(all.take(k + 1).drop_last() =~= all.take(k as int));
        let row = build_row(peers, restrictions, ips[k], now);
        assert(all.take(k + 1).last() == row@);
        if peer_matches_filter(&row, app_state.ui.peer_management.filter) {
            let text = peer_search_text(&row, app_state);
            if peer_matches_query(
                text.as_str(),
                app_state.ui.peer_management.search_query.as_str(),
                app_state.ui.peer_management.search_mode,
            ) {
                let ghost was = row_facts(rows@);
                let ghost view = row@;
                rows.push(row);
                assert(row_facts(rows@) =~= was.push(view));
            }
        }
        k = k + 1;
    }
    assert(all.take(k as int) =~= all);
    sort_peer_rows(app_state, rows)
}

/// Puts rows in the order of the table.
pub fn sort_peer_rows(app_state: &AppState, rows: Vec<PeerRowModel>) -> (sorted: Vec<PeerRowModel>)
    ensures
        row_facts(sorted@) == stably_sorted(row_facts(rows@), table_order(app_state.peers())),
{
    let order = PeerOrder {
        column: peer_sort_column(app_state),
        direction: app_state.ui.peer_management.sort_direction,
    };
    let ghost before = rows@;
    let sorted = stable_sort_owned(rows, &order);
    proof {
        let f = |row: PeerRowModel| row@;
        let less = table_order(app_state.peers());
        let by_f = |a: PeerRowModel, b: PeerRowModel| less(f(a), f(b));
        assert(order_of::<PeerRowModel, PeerOrder>(&order) =~= by_f);
        sorting_commutes_with_mapping(before, f, less);
    }
    sorted
}

// ------------------------------------------------------------- the projection

/// The first of some moments after now at which a restriction ends.
pub open spec fn first_expiry(restrictions: Seq<RestrictedPeer>, now: u128) -> Option<u128>
    decreases restrictions.len(),
{
    if restrictions.len() == 0 {
        None
    } else {
        let before = first_expiry(restrictions.drop_last(), now);
        let end = restrictions.last().restriction.blocked_until;
        if end > now && (match before {
            Some(before) => end < before,
            None => true,
        }) {
            Some(end)
        } else {
            before
        }
    }
}

fn next_expiry(restrictions: &Vec<RestrictedPeer>, now: u128) -> (expiry: Option<u128>)
    ensures
        expiry == first_expiry(restrictions@, now),
{
    let mut first: Option<u128> = None;
    let mut i: usize = 0;
    assert(restrictions@.take(0) =~= Seq::<RestrictedPeer>::empty());
    while i < restrictions.len()
        invariant
            i <= restrictions@.len(),
            first == first_expiry(restrictions@.take(i as int), now),
        decreases restrictions@.len() - i,
    {
        assert(restrictions@.take(i + 1).drop_last() =~= restrictions@.take(i as int));
        let end = restrictions[i].restriction.blocked_until;
        if end > now {
            first =
            match first {
                Some(before) => if end < before {
                    Some(end)
                } else {
                    Some(before)
                },
                None => Some(end),
            };
        }
        i = i + 1;
    }
    assert(restrictions@.take(i as int) =~= restrictions@);
    first
}

/// The details closed and their search dropped.
pub open spec fn details_closed(pm: PeerScreenView) -> PeerScreenView {
    PeerScreenView {
        show_details: false,
        details_peer_ip: None,
        details_scroll_offset: 0,
        details_is_searching: false,
        details_search_query: Seq::empty(),
        ..pm
    }
}

/// The selection at the top, with the details closed.
pub open spec fn selection_reset(pm: PeerScreenView) -> PeerScreenView {
    PeerScreenView { selected_index: 0, ..details_closed(pm) }
}

/// The selection on a row, as far down as there are rows; without rows there are
/// no details either.
pub open spec fn selection_reconciled(pm: PeerScreenView, rows: int) -> PeerScreenView {
    if rows == 0 {
        selection_reset(pm)
    } else {
        PeerScreenView { selected_index: min_int(pm.selected_index, rows - 1), ..pm }
    }
}

/// Closes the details and drops their search.
pub fn close_details(app_state: &mut AppState)
    ensures
        final(app_state).peers() == old(app_state).peers().with_pm(
            details_closed(old(app_state).peers().pm),
        ),
        old(app_state).same_but_peers(*final(app_state)),
{
    app_state.ui.peer_management.show_details = false;
    app_state.ui.peer_management.details_peer_ip = None;
    app_state.ui.peer_management.details_scroll_offset = 0;
    app_state.ui.peer_management.details_is_searching = false;
    app_state.ui.peer_management.details_search_query.clear();
}

/// Puts the selection back to the top.
pub fn reset_peer_selection(app_state: &mut AppState)
    ensures
        final(app_state).peers() == old(app_state).peers().with_pm(
            selection_reset(old(app_state).peers().pm),
        ),
        old(app_state).same_but_peers(*final(app_state)),
{
    app_state.ui.peer_management.selected_index = 0;
    close_details(app_state);
}

/// Keeps the selection on a row.
pub fn reconcile_peer_selection(app_state: &mut AppState, row_count: usize)
    ensures
        final(app_state).peers() == old(app_state).peers().with_pm(
            selection_reconciled(old(app_state).peers().pm, row_count as int),
        ),
        old(app_state).same_but_peers(*final(app_state)),
{
    if row_count == 0 {
        reset_peer_selection(app_state);
        return;
    }
    if app_state.ui.peer_management.selected_index > row_count - 1 {
        app_state.ui.peer_management.selected_index = row_count - 1;
    }
}

/// The state once the rows were worked out for a moment.
pub open spec fn recomputed(m: PeerModel, now: u128) -> PeerModel {
    let rows = peer_rows(m, now);
    PeerModel {
        pm: selection_reconciled(m.pm, rows.len() as int),
        rows,
        next_expiry: first_expiry(m.restrictions, now),
        recomputed: capped(m.recomputed + 1),
        ..m
    }
}

/// Works the rows out for a moment and keeps the selection on one of them.
pub fn recompute_peer_management_derived(app_state: &mut AppState, now: u128)
    ensures
        final(app_state).peers() == recomputed(old(app_state).peers(), now),
        old(app_state).same_but_peers(*final(app_state)),
{
    let rows = build_peer_rows_at(app_state, now);
    let next_restriction_expiry = next_expiry(&app_state.peer_policy.restrictions, now);
    let count = rows.len();
    assert(row_facts(rows@).len() == count);
    reconcile_peer_selection(app_state, count);
    let recomputed = app_state.peer_management_derived.recomputed.saturating_add(1);
    app_state.peer_management_derived =
    PeerManagementDerivedState { rows, next_restriction_expiry, recomputed };
}

/// The state at a moment: the rows are worked out anew only once a restriction
/// among them has ended.
pub open spec fn refreshed(m: PeerModel, now: u128) -> PeerModel {
    match m.next_expiry {
        Some(expiry) => if expiry <= now {
            recomputed(m, now)
        } else {
            m
        },
        None => m,
    }
}

/// Works the rows out anew if a restriction among them has ended.
pub fn refresh_peer_management_expiries(app_state: &mut AppState, now: u128)
    ensures
        final(app_state).peers() == refreshed(old(app_state).peers(), now),
        old(app_state).same_but_peers(*final(app_state)),
{
    if let Some(expiry) = app_state.peer_management_derived.next_restriction_expiry {
        if expiry <= now {
            recompute_peer_management_derived(app_state, now);
        }
    }
}

} // verus!
