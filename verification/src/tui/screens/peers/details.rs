//! The details of one peer: their lines, and how far they scroll.
use crate::app::{AppState, PeerScreenView};
use crate::geometry::{frame_inner, framed, max_int, monus, Rect};
use crate::lists::{add_text, distinct_texts, kept, texts};
use crate::peer_manager::{
    IpAddr, PeerManagerEndpointView, PeerManagerTrackedPeer, PeerRestrictionReason,
};
use crate::text::{
    contains_text, cut_off, decimal, format_number, has_inside, join, join3, owned, sanitize_text,
    sanitized, truncate_with_ellipsis,
};
use crate::tui::layout::peers::{
    calculate_peer_screen_layout, peer_body_height, peer_frame, peer_side_heights, PeerBodyLayout,
};
use crate::tui::screens::peers::labels::{
    compact_duration, display_endpoint, display_ip, display_torrent_name, duration_text,
    elapsed_text, format_elapsed, format_remaining, plural_suffix, remaining_text, short_info_hash,
    shown_endpoint, shown_hash, shown_ip, shown_torrent,
};
use crate::tui::screens::peers::rows::{
    clients_text, preferred_client_label, row_facts, state_text, PeerFacts, PeerRowModel,
};
use crate::tui::screens::peers::table::{
    peer_matches_query, peer_query_matches, present_records, query_error, search_error,
    torrent_label, torrent_label_for_hash, PeerModel,
};
use crate::tui::screens::torrents::review::capped_size;
use vstd::prelude::*;
use vstd::string::StringExecFns;

verus! {

// -------------------------------------------------------------- the geometry

/// The details take the place of the table on every screen.
pub fn peer_uses_details_overlay(_app_state: &AppState) -> (uses: bool)
    ensures
        uses,
{
    true
}

pub fn peer_details_overlay_active(app_state: &AppState) -> (active: bool)
    ensures
        active == app_state.peers().pm.show_details,
{
    app_state.ui.peer_management.show_details && peer_uses_details_overlay(app_state)
}

pub open spec fn table_search_panel(pm: PeerScreenView) -> bool {
    pm.is_searching || pm.search_query.len() > 0
}

pub open spec fn details_search_panel(pm: PeerScreenView) -> bool {
    pm.details_is_searching || pm.details_search_query.len() > 0
}

/// Whether the search panel of what is shown is on view.
pub open spec fn active_search_panel(pm: PeerScreenView) -> bool {
    if pm.show_details {
        details_search_panel(pm)
    } else {
        table_search_panel(pm)
    }
}

pub fn peer_table_search_panel_active(app_state: &AppState) -> (active: bool)
    ensures
        active == table_search_panel(app_state.peers().pm),
{
    app_state.ui.peer_management.is_searching
        || !app_state.ui.peer_management.search_query.as_str().is_empty()
}

pub fn peer_details_search_panel_active(app_state: &AppState) -> (active: bool)
    ensures
        active == details_search_panel(app_state.peers().pm),
{
    app_state.ui.peer_management.details_is_searching
        || !app_state.ui.peer_management.details_search_query.as_str().is_empty()
}

pub fn active_peer_search_panel_active(app_state: &AppState) -> (active: bool)
    ensures
        active == active_search_panel(app_state.peers().pm),
{
    if peer_details_overlay_active(app_state) {
        peer_details_search_panel_active(app_state)
    } else {
        peer_table_search_panel_active(app_state)
    }
}

/// The screen, or what counts as one before the first frame.
pub open spec fn screen_or_default(screen: Rect, unknown: bool) -> Rect {
    if unknown {
        Rect { x: 0, y: 0, width: 140, height: 36 }
    } else {
        screen
    }
}

fn assumed_screen(screen: Rect, unknown: bool) -> (area: Rect)
    requires
        screen.valid(),
    ensures
        area == screen_or_default(screen, unknown),
        area.valid(),
{
    if unknown {
        Rect::new(0, 0, 140, 36)
    } else {
        screen
    }
}

/// The height of table or details on a screen.
pub open spec fn body_height(area: Rect, pm: PeerScreenView) -> int {
    peer_body_height(peer_frame(area).height as int, active_search_panel(pm))
}

/// The width of the table.
pub open spec fn peer_table_width(m: PeerModel) -> int {
    peer_frame(screen_or_default(m.screen, m.screen.width == 0)).width as int
}

/// The width of the table.
pub fn peer_table_width_for_state(app_state: &AppState) -> (width: u16)
    requires
        app_state.well_formed(),
    ensures
        width == peer_table_width(app_state.peers()),
{
    let area = assumed_screen(app_state.screen_area, app_state.screen_area.width == 0);
    let layout = calculate_peer_screen_layout(
        area,
        active_peer_search_panel_active(app_state),
        app_state.ui.peer_management.show_details,
    );
    match layout.body {
        PeerBodyLayout::TableOnly { table } => table.width,
        PeerBodyLayout::DetailsOnly { details } => details.width,
    }
}

/// The rows that paging moves by: those that the table shows, but at least one.
pub open spec fn peer_page(m: PeerModel) -> int {
    max_int(
        monus(body_height(screen_or_default(m.screen, m.screen.height == 0), m.pm), 3),
        1,
    )
}

pub fn peer_page_rows(app_state: &AppState) -> (rows: usize)
    requires
        app_state.well_formed(),
    ensures
        rows == peer_page(app_state.peers()),
{
    let area = assumed_screen(app_state.screen_area, app_state.screen_area.height == 0);
    let layout = calculate_peer_screen_layout(
        area,
        active_peer_search_panel_active(app_state),
        app_state.ui.peer_management.show_details,
    );
    let height: u16 = match layout.body {
        PeerBodyLayout::TableOnly { table } => table.height,
        PeerBodyLayout::DetailsOnly { details } => details.height,
    };
    let rows: u16 = height.saturating_sub(3);
    if rows >= 1 {
        rows as usize
    } else {
        1
    }
}

/// The height of the details, if they are shown.
pub open spec fn details_height(m: PeerModel) -> Option<int> {
    if m.pm.show_details {
        Some(
            body_height(
                screen_or_default(m.screen, m.screen.width == 0 || m.screen.height == 0),
                m.pm,
            ),
        )
    } else {
        None
    }
}

/// The area of the details, if they are shown.
pub fn peer_details_area_for_state(app_state: &AppState) -> (area: Option<Rect>)
    requires
        app_state.well_formed(),
    ensures
        area is Some == (details_height(app_state.peers()) is Some),
        area matches Some(area) ==> {
            let m = app_state.peers();
            let frame = peer_frame(
                screen_or_default(m.screen, m.screen.width == 0 || m.screen.height == 0),
            );
            let searching = active_search_panel(m.pm);
            &&& area.valid()
            &&& area.x == frame.x && area.width == frame.width
            &&& area.height == details_height(m).unwrap()
            &&& area.y == frame.y + peer_side_heights(frame.height as int, searching).0
                + peer_side_heights(frame.height as int, searching).1
        },
{
    let screen = assumed_screen(
        app_state.screen_area,
        app_state.screen_area.width == 0 || app_state.screen_area.height == 0,
    );
    match calculate_peer_screen_layout(
        screen,
        active_peer_search_panel_active(app_state),
        app_state.ui.peer_management.show_details,
    ).body {
        PeerBodyLayout::DetailsOnly { details } => Some(details),
        PeerBodyLayout::TableOnly { .. } => None,
    }
}

/// What is inside the frame of the details.
pub fn peer_details_inner_area(area: Rect) -> (inner: Rect)
    requires
        area.valid(),
    ensures
        inner == framed(area, 1, 0),
{
    frame_inner(area, 1, 0)
}

/// The lines on view: if there are more than fit, the last row shows where one is.
pub open spec fn content_height(lines: int, inner_height: int) -> int {
    if lines > inner_height {
        monus(inner_height, 1)
    } else {
        inner_height
    }
}

pub fn peer_details_content_height(line_count: usize, inner_height: u16) -> (height: usize)
    ensures
        height == content_height(line_count as int, inner_height as int),
{
    let height: usize = inner_height as usize;
    if line_count > height {
        height.saturating_sub(1)
    } else {
        height
    }
}

/// The lines that paging moves by.
pub open spec fn details_page(m: PeerModel) -> int {
    match details_height(m) {
        Some(height) => max_int(monus(monus(height, 2), 2), 1),
        None => 1,
    }
}

pub fn peer_details_page_rows(app_state: &AppState) -> (rows: usize)
    requires
        app_state.well_formed(),
    ensures
        rows == details_page(app_state.peers()),
{
    match peer_details_area_for_state(app_state) {
        Some(area) => {
            let rows: usize = (peer_details_inner_area(area).height as usize).saturating_sub(2);
            if rows >= 1 {
                rows
            } else {
                1
            }
        },
        None => 1,
    }
}

// ------------------------------------------------------------------ the lines

/// Those records of a row whose torrent the search of the details shows.
pub open spec fn matching_records(m: PeerModel, row: PeerFacts) -> Seq<usize> {
    kept(
        present_records(m.peers, row.records),
        |i: usize|
            peer_query_matches(
                shown_torrent(
                    m.peers[i as int].shown_name@,
                    m.peers[i as int].masked_name@,
                    m.privacy,
                ),
                m.pm.details_search_query,
                m.pm.details_search_mode,
            ),
    )
}

/// Those records of a row whose torrent the search of the details shows.
#[verifier::loop_isolation(false)]
pub fn matching_detail_torrents(app_state: &AppState, row: &PeerRowModel) -> (records: Vec<usize>)
    ensures
        records@ == matching_records(app_state.peers(), row@),
        forall|k: int|
            0 <= k < records@.len() ==> #[trigger] records@[k]
                < app_state.peer_manager_view.tracked_peers@.len(),
{
    let ghost m = app_state.peers();
    let ghost test = |i: usize|
        peer_query_matches(
            shown_torrent(
                m.peers[i as int].shown_name@,
                m.peers[i as int].masked_name@,
                m.privacy,
            ),
            m.pm.details_search_query,
            m.pm.details_search_mode,
        );
    let all = row.records(app_state);
    let mut records: Vec<usize> = Vec::new();
    let mut k: usize = 0;
    assert(all@.take(0) =~= Seq::<usize>::empty());
    while k < all.len()
        invariant
            k <= all@.len(),
            records@ == kept(all@.take(k as int), test),
            forall|k: int|
                0 <= k < records@.len() ==> #[trigger] records@[k]
                    < app_state.peer_manager_view.tracked_peers@.len(),
        decreases all@.len() - k,
    {
        assert(all@.take(k + 1).drop_last() =~= all@.take(k as int));
        let i = all[k];
        let peer = &app_state.peer_manager_view.tracked_peers[i];
        let name = display_torrent_name(
            peer.shown_name.as_str(),
            peer.masked_name.as_str(),
            app_state.anonymize_torrent_names,
        );
        if peer_matches_query(
            name.as_str(),
            app_state.ui.peer_management.details_search_query.as_str(),
            app_state.ui.peer_management.details_search_mode,
        ) {
            records.push(i);
        }
        k = k + 1;
    }
    assert(all@.take(k as int) =~= all@);
    records
}

/// The lines on one record: seven, and one for each endpoint.
pub open spec fn record_lines(peer: PeerManagerTrackedPeer) -> int {
    7 + peer.endpoints@.len() as int
}

pub fn tracked_peer_detail_line_count(peer: &PeerManagerTrackedPeer) -> (lines: usize)
    ensures
        lines == capped_size(record_lines(*peer)),
{
    if peer.endpoints.len() == 0 {
        7
    } else {
        peer.endpoints.len().saturating_add(7)
    }
}

pub open spec fn all_record_lines(
    peers: Seq<PeerManagerTrackedPeer>,
    records: Seq<usize>,
) -> int
    decreases records.len(),
{
    if records.len() == 0 {
        0
    } else {
        all_record_lines(peers, records.drop_last()) + record_lines(peers[records.last() as int])
    }
}

/// The lines of the details of a row.
pub open spec fn detail_lines(m: PeerModel, row: PeerFacts) -> int {
    let head = if row.restriction is Some {
        8int
    } else {
        4
    };
    let matching = matching_records(m, row);
    if row.records.len() == 0 {
        head + 2
    } else if matching.len() == 0 {
        head + 3
    } else {
        head + 2 + all_record_lines(m.peers, matching) + matching.len() - 1
    }
}

proof fn record_lines_are_positive(peers: Seq<PeerManagerTrackedPeer>, records: Seq<usize>)
    ensures
        all_record_lines(peers, records) >= 0,
    decreases records.len(),
{
    if records.len() > 0 {
        record_lines_are_positive(peers, records.drop_last());
    }
}

/// The lines of the details of a row, as far as a machine can count.
pub fn peer_detail_line_count(app_state: &AppState, row: &PeerRowModel) -> (lines: usize)
    ensures
        lines == capped_size(detail_lines(app_state.peers(), row@)),
{
    let ghost m = app_state.peers();
    let head: usize = if row.restriction.is_some() {
        8
    } else {
        4
    };
    if row.tracked_indices.len() == 0 {
        return head + 2;
    }
    let matching = matching_detail_torrents(app_state, row);
    if matching.len() == 0 {
        return head + 3;
    }
    let mut lines: usize = 0;
    let mut k: usize = 0;
    assert(matching@.take(0) =~= Seq::<usize>::empty());
    while k < matching.len()
        invariant
            k <= matching@.len(),
            m == app_state.peers(),
            forall|k: int|
                0 <= k < matching@.len() ==> #[trigger] matching@[k]
                    < app_state.peer_manager_view.tracked_peers@.len(),
            lines == capped_size(all_record_lines(m.peers, matching@.take(k as int))),
        decreases matching@.len() - k,
    {
        proof {
            record_lines_are_positive(m.peers, matching@.take(k as int));
            assert(matching@.take(k + 1).drop_last() =~= matching@.take(k as int));
        }
        let peer = &app_state.peer_manager_view.tracked_peers[matching[k]];
        lines = lines.saturating_add(tracked_peer_detail_line_count(peer));
        k = k + 1;
    }
    assert(matching@.take(k as int) =~= matching@);
    proof {
        record_lines_are_positive(m.peers, matching@);
    }
    (head + 2).saturating_add(lines).saturating_add(matching.len() - 1)
}

/// The row whose details are shown.
pub open spec fn pinned_row(rows: Seq<PeerFacts>, ip: Option<IpAddr>) -> Option<int>
    decreases rows.len(),
{
    if rows.len() == 0 || ip is None {
        None
    } else {
        match pinned_row(rows.drop_last(), ip) {
            Some(k) => Some(k),
            None => if Some(rows.last().ip) == ip {
                Some(rows.len() - 1)
            } else {
                None
            },
        }
    }
}

proof fn pinned_stays(rows: Seq<PeerFacts>, ip: Option<IpAddr>, n: int)
    requires
        0 <= n <= rows.len(),
        pinned_row(rows.take(n), ip) is Some,
    ensures
        pinned_row(rows, ip) == pinned_row(rows.take(n), ip),
    decreases rows.len() - n,
{
    if n < rows.len() {
        assert(rows.take(n + 1).drop_last() =~= rows.take(n));
        pinned_stays(rows, ip, n + 1);
    } else {
        assert(rows.take(n) =~= rows);
    }
}

/// The row whose details are shown.
pub fn pinned_peer_detail_row(app_state: &AppState) -> (index: Option<usize>)
    ensures
        crate::lists::index_of(index) == pinned_row(
            app_state.peers().rows,
            app_state.peers().pm.details_peer_ip,
        ),
        index matches Some(k) ==> k < app_state.peer_management_derived.rows@.len(),
{
    let rows = &app_state.peer_management_derived.rows;
    let ghost all = row_facts(rows@);
    let ip = match app_state.ui.peer_management.details_peer_ip {
        Some(ip) => ip,
        None => {
            return None;
        },
    };
    let mut k: usize = 0;
    while k < rows.len()
        invariant
            k <= rows@.len(),
            all == row_facts(rows@),
            *rows == app_state.peer_management_derived.rows,
            app_state.ui.peer_management.details_peer_ip == Some(ip),
            pinned_row(all.take(k as int), Some(ip)) is None,
        decreases rows@.len() - k,
    {
        assert(all.take(k + 1).drop_last() =~= all.take(k as int));
        assert(all.take(k + 1).last() == rows@[k as int]@);
        if rows[k].ip == ip {
            proof {
                pinned_stays(all, Some(ip), k + 1);
            }
            return Some(k);
        }
        k = k + 1;
    }
    assert(all.take(k as int) =~= all);
    None
}

/// How far the details can be scrolled.
pub open spec fn details_max_scroll(m: PeerModel) -> int {
    match (details_height(m), pinned_row(m.rows, m.pm.details_peer_ip)) {
        (Some(height), Some(k)) => {
            let lines = capped_size(detail_lines(m, m.rows[k]));
            monus(lines, content_height(lines, monus(height, 2)))
        },
        _ => 0,
    }
}

/// How far the details can be scrolled.
pub fn peer_details_max_scroll(app_state: &AppState) -> (offset: usize)
    requires
        app_state.well_formed(),
    ensures
        offset == details_max_scroll(app_state.peers()),
{
    let area = match peer_details_area_for_state(app_state) {
        Some(area) => area,
        None => {
            return 0;
        },
    };
    let k = match pinned_peer_detail_row(app_state) {
        Some(k) => k,
        None => {
            return 0;
        },
    };
    let row = &app_state.peer_management_derived.rows[k];
    assert(app_state.peers().rows[k as int] == row@);
    let line_count = peer_detail_line_count(app_state, row);
    let inner = peer_details_inner_area(area);
    line_count.saturating_sub(peer_details_content_height(line_count, inner.height))
}

// -------------------------------------------------------- what the lines say

/// A line of the details. Quantities of bytes and shares are left as numbers.
#[derive(Clone, Debug, PartialEq, Eq)]
pub enum DetailLine {
    Blank,
    /// The address, the state, and how many torrents and endpoints.
    Title { address: String, state: &'static str, counts: String },
    Field { label: &'static str, value: String },
    Reason(PeerRestrictionReason),
    Heading(String),
    Note(&'static str),
    Torrent { number: String, name: String },
    Hash(String),
    Client(String),
    Upload { observed: u64, threshold: u64 },
    Download { observed: u64, threshold: u64 },
    Reconnects { count: u32, rest: String },
    NoEndpoints,
    Endpoints,
    Endpoint { number: String, address: String, downloaded: u64, uploaded: u64 },
}

#[verifier::ext_equal]
pub enum DetailView {
    Blank,
    Title(Seq<char>, Seq<char>, Seq<char>),
    Field(Seq<char>, Seq<char>),
    Reason(PeerRestrictionReason),
    Heading(Seq<char>),
    Note(Seq<char>),
    Torrent(Seq<char>, Seq<char>),
    Hash(Seq<char>),
    Client(Seq<char>),
    Upload(u64, u64),
    Download(u64, u64),
    Reconnects(u32, Seq<char>),
    NoEndpoints,
    Endpoints,
    Endpoint(Seq<char>, Seq<char>, u64, u64),
}

impl View for DetailLine {
    type V = DetailView;

    open spec fn view(&self) -> DetailView {
        match *self {
            DetailLine::Blank => DetailView::Blank,
            DetailLine::Title { address, state, counts } => DetailView::Title(
                address@,
                state@,
                counts@,
            ),
            DetailLine::Field { label, value } => DetailView::Field(label@, value@),
            DetailLine::Reason(reason) => DetailView::Reason(reason),
            DetailLine::Heading(text) => DetailView::Heading(text@),
            DetailLine::Note(text) => DetailView::Note(text@),
            DetailLine::Torrent { number, name } => DetailView::Torrent(number@, name@),
            DetailLine::Hash(text) => DetailView::Hash(text@),
            DetailLine::Client(text) => DetailView::Client(text@),
            DetailLine::Upload { observed, threshold } => DetailView::Upload(observed, threshold),
            DetailLine::Download { observed, threshold } => DetailView::Download(
                observed,
                threshold,
            ),
            DetailLine::Reconnects { count, rest } => DetailView::Reconnects(count, rest@),
            DetailLine::NoEndpoints => DetailView::NoEndpoints,
            DetailLine::Endpoints => DetailView::Endpoints,
            DetailLine::Endpoint { number, address, downloaded, uploaded } => DetailView::Endpoint(
                number@,
                address@,
                downloaded,
                uploaded,
            ),
        }
    }
}

pub open spec fn detail_views(lines: Seq<DetailLine>) -> Seq<DetailView> {
    lines.map_values(|line: DetailLine| line@)
}

fn push_line(lines: &mut Vec<DetailLine>, line: DetailLine)
    ensures
        detail_views(final(lines)@) == detail_views(old(lines)@).push(line@),
{
    let ghost was = detail_views(lines@);
    let ghost view = line@;
    lines.push(line);
    assert(detail_views(lines@) =~= was.push(view));
}

/// A number of at least two digits.
pub open spec fn two_digits(n: int) -> Seq<char> {
    if n < 10 {
        "0"@ + decimal(n as nat)
    } else {
        decimal(n as nat)
    }
}

fn format_two_digits(n: usize) -> (text: String)
    ensures
        text@ == two_digits(n as int),
{
    let digits = format_number(n as u64);
    if n < 10 {
        join("0", digits.as_str())
    } else {
        digits
    }
}

/// The lines on the endpoints of a record.
pub open spec fn endpoint_lines(
    endpoints: Seq<PeerManagerEndpointView>,
    privacy: bool,
) -> Seq<DetailView> {
    Seq::new(
        endpoints.len(),
        |k: int|
            DetailView::Endpoint(
                "    "@ + decimal((k + 1) as nat) + "  "@,
                shown_endpoint(endpoints[k].address@, endpoints[k].shown_address@, privacy),
                endpoints[k].total_downloaded,
                endpoints[k].total_uploaded,
            ),
    )
}

/// The lines on one record.
pub open spec fn lines_on_record(
    peer: PeerManagerTrackedPeer,
    number: int,
    privacy: bool,
    width: int,
) -> Seq<DetailView> {
    seq![
        DetailView::Torrent(
            two_digits(number) + "  "@,
            cut_off(
                shown_torrent(peer.shown_name@, peer.masked_name@, privacy),
                max_int(monus(width, 4), 1),
            ),
        ),
        DetailView::Hash(shown_hash(peer.torrent_info_hash@, privacy)),
        DetailView::Client(clients_text(texts(peer.clients@))),
        DetailView::Upload(peer.uploaded_evidence_bytes, peer.transfer_threshold_bytes),
        DetailView::Download(peer.downloaded_evidence_bytes, peer.transfer_threshold_bytes),
        DetailView::Reconnects(
            peer.reconnect_count,
            " / "@ + decimal(peer.reconnect_limit as nat) + "  •  "@ + duration_text(
                peer.reconnect_window_secs as int,
            ) + " window"@,
        ),
        if peer.endpoints@.len() == 0 {
            DetailView::NoEndpoints
        } else {
            DetailView::Endpoints
        },
    ] + endpoint_lines(peer.endpoints@, privacy)
}

/// The clients of one record.
pub fn tracked_peer_client_label(peer: &PeerManagerTrackedPeer) -> (label: String)
    ensures
        label@ == clients_text(texts(peer.clients@)),
{
    preferred_client_label(&peer.clients)
}

/// Adds the lines on one record.
#[verifier::loop_isolation(false)]
pub fn tracked_peer_detail_lines(
    lines: &mut Vec<DetailLine>,
    peer: &PeerManagerTrackedPeer,
    number: usize,
    privacy: bool,
    available_width: u16,
)
    ensures
        detail_views(final(lines)@) == detail_views(old(lines)@) + lines_on_record(
            *peer,
            number as int,
            privacy,
            available_width as int,
        ),
{
    let ghost base = detail_views(lines@);
    let name = display_torrent_name(peer.shown_name.as_str(), peer.masked_name.as_str(), privacy);
    let room: usize = (available_width as usize).saturating_sub(4);
    let room: usize = if room >= 1 {
        room
    } else {
        1
    };
    push_line(
        lines,
        DetailLine::Torrent {
            number: join(format_two_digits(number).as_str(), "  "),
            name: truncate_with_ellipsis(name.as_str(), room),
        },
    );
    push_line(lines, DetailLine::Hash(short_info_hash(&peer.torrent_info_hash, privacy)));
    push_line(lines, DetailLine::Client(tracked_peer_client_label(peer)));
    push_line(
        lines,
        DetailLine::Upload {
            observed: peer.uploaded_evidence_bytes,
            threshold: peer.transfer_threshold_bytes,
        },
    );
    push_line(
        lines,
        DetailLine::Download {
            observed: peer.downloaded_evidence_bytes,
            threshold: peer.transfer_threshold_bytes,
        },
    );
    let mut rest = join3(" / ", format_number(peer.reconnect_limit as u64).as_str(), "  •  ");
    rest.append(compact_duration(peer.reconnect_window_secs).as_str());
    rest.append(" window");
    push_line(lines, DetailLine::Reconnects { count: peer.reconnect_count, rest });
    push_line(
        lines,
        if peer.endpoints.len() == 0 {
            DetailLine::NoEndpoints
        } else {
            DetailLine::Endpoints
        },
    );
    let ghost head = detail_views(lines@);
    let ghost all = endpoint_lines(peer.endpoints@, privacy);
    let mut k: usize = 0;
    assert(head + all.take(0) =~= head);
    while k < peer.endpoints.len()
        invariant
            k <= peer.endpoints@.len(),
            detail_views(lines@) == head + all.take(k as int),
        decreases peer.endpoints@.len() - k,
    {
        let endpoint = &peer.endpoints[k];
        push_line(
            lines,
            DetailLine::Endpoint {
                number: join3("    ", format_number((k + 1) as u64).as_str(), "  "),
                address: display_endpoint(
                    endpoint.address.as_str(),
                    endpoint.shown_address.as_str(),
                    privacy,
                ),
                downloaded: endpoint.total_downloaded,
                uploaded: endpoint.total_uploaded,
            },
        );
        assert(all.take(k + 1) =~= all.take(k as int).push(all[k as int]));
        assert(head + all.take(k + 1) =~= (head + all.take(k as int)).push(all[k as int]));
        k = k + 1;
    }
    assert(all.take(k as int) =~= all);
    assert(detail_views(lines@) =~= base + lines_on_record(
        *peer,
        number as int,
        privacy,
        available_width as int,
    ));
}

/// The lines on some records, with a blank line between two.
pub open spec fn lines_on_records(
    peers: Seq<PeerManagerTrackedPeer>,
    records: Seq<usize>,
    privacy: bool,
    width: int,
) -> Seq<DetailView>
    decreases records.len(),
{
    if records.len() == 0 {
        Seq::empty()
    } else {
        let head = lines_on_records(peers, records.drop_last(), privacy, width);
        (if records.len() > 1 {
            head.push(DetailView::Blank)
        } else {
            head
        }) + lines_on_record(
            peers[records.last() as int],
            records.len() as int,
            privacy,
            width,
        )
    }
}

/// The endpoints of some records.
pub open spec fn endpoint_addresses(
    peers: Seq<PeerManagerTrackedPeer>,
    records: Seq<usize>,
) -> Seq<Seq<char>>
    decreases records.len(),
{
    if records.len() == 0 {
        Seq::empty()
    } else {
        endpoint_addresses(peers, records.drop_last())
            + peers[records.last() as int].endpoints@.map_values(
            |endpoint: PeerManagerEndpointView| endpoint.address@,
        )
    }
}

/// How many different endpoints a peer has.
pub open spec fn endpoints_of(m: PeerModel, row: PeerFacts) -> int {
    distinct_texts(endpoint_addresses(m.peers, present_records(m.peers, row.records))).len() as int
}

proof fn distinct_grows(list: Seq<Seq<char>>, text: Seq<char>)
    ensures
        distinct_texts(list.push(text)) == if distinct_texts(list).contains(text) {
            distinct_texts(list)
        } else {
            distinct_texts(list).push(text)
        },
{
    assert(list.push(text).drop_last() =~= list);
}

impl PeerRowModel {
    /// How many different endpoints the peer has.
    #[verifier::loop_isolation(false)]
    pub fn endpoint_count(&self, app_state: &AppState) -> (count: usize)
        ensures
            count == endpoints_of(app_state.peers(), self@),
    {
        let ghost m = app_state.peers();
        let records = self.records(app_state);
        let mut seen: Vec<String> = Vec::new();
        let mut k: usize = 0;
        assert(texts(seen@) =~= Seq::<Seq<char>>::empty());
        assert(records@.take(0) =~= Seq::<usize>::empty());
        while k < records.len()
            invariant
                k <= records@.len(),
                texts(seen@) == distinct_texts(
                    endpoint_addresses(m.peers, records@.take(k as int)),
                ),
            decreases records@.len() - k,
        {
            assert(records@.take(k + 1).drop_last() =~= records@.take(k as int));
            let endpoints = &app_state.peer_manager_view.tracked_peers[records[k]].endpoints;
            let ghost base = endpoint_addresses(m.peers, records@.take(k as int));
            let ghost more = endpoints@.map_values(
                |endpoint: PeerManagerEndpointView| endpoint.address@,
            );
            let mut j: usize = 0;
            assert(base + more.take(0) =~= base);
            while j < endpoints.len()
                invariant
                    j <= endpoints@.len(),
                    texts(seen@) == distinct_texts(base + more.take(j as int)),
                decreases endpoints@.len() - j,
            {
                proof {
                    distinct_grows(base + more.take(j as int), more[j as int]);
                    assert(more.take(j + 1) =~= more.take(j as int).push(more[j as int]));
                    assert(base + more.take(j + 1) =~= (base + more.take(j as int)).push(
                        more[j as int],
                    ));
                }
                add_text(&mut seen, endpoints[j].address.as_str());
                j = j + 1;
            }
            assert(more.take(j as int) =~= more);
            k = k + 1;
        }
        assert(records@.take(k as int) =~= records@);
        assert(texts(seen@).len() == seen@.len());
        seen.len()
    }
}

pub open spec fn plural(count: int) -> Seq<char> {
    if count == 1 {
        ""@
    } else {
        "s"@
    }
}

/// The first lines of the details: who the peer is.
pub open spec fn title_lines(m: PeerModel, row: PeerFacts) -> Seq<DetailView> {
    seq![
        DetailView::Title(
            shown_ip(row.ip, m.privacy),
            state_text(row),
            "  •  "@ + decimal(row.torrent_count as nat) + " torrent"@ + plural(row.torrent_count)
                + "  •  "@ + decimal(endpoints_of(m, row) as nat) + " endpoint"@ + plural(
                endpoints_of(m, row),
            ),
        ),
        DetailView::Field(
            if has_inside(row.client, ", "@) {
                "Clients"@
            } else {
                "Client"@
            },
            row.client,
        ),
        DetailView::Blank,
    ]
}

/// The lines on the restriction of a peer.
pub open spec fn policy_lines(m: PeerModel, row: PeerFacts, now: u128) -> Seq<DetailView> {
    match row.restriction {
        Some(restriction) => seq![
            DetailView::Heading("Policy"@),
            DetailView::Reason(restriction.reason),
            DetailView::Field(
                "Detected"@,
                elapsed_text(now as int, restriction.detected_at as int),
            ),
            DetailView::Field(
                "Expires"@,
                remaining_text(now as int, restriction.blocked_until as int),
            ),
            DetailView::Field(
                "Origin"@,
                match restriction.torrent_info_hash {
                    Some(hash) => torrent_label(m.peers, m.torrents, row.records, hash, m.privacy),
                    None => "global/manual"@,
                },
            ),
        ],
        None => seq![DetailView::Note("No active restriction"@)],
    }
}

/// The lines on the torrents of a peer.
pub open spec fn history_lines(m: PeerModel, row: PeerFacts, width: int) -> Seq<DetailView> {
    let matching = matching_records(m, row);
    if row.records.len() == 0 {
        seq![
            DetailView::Blank,
            DetailView::Note("Tracking history is unavailable for this restored policy entry."@),
        ]
    } else {
        seq![
            DetailView::Blank,
            DetailView::Heading(
                "Per-torrent evidence  •  "@ + decimal(matching.len()) + " of "@ + decimal(
                    row.records.len(),
                ),
            ),
        ] + (if matching.len() == 0 {
            seq![
                DetailView::Note(
                    if query_error(m.pm.details_search_query, m.pm.details_search_mode) {
                        "Fix the search expression to see torrents."@
                    } else {
                        "No torrent names match this search."@
                    },
                ),
            ]
        } else {
            lines_on_records(m.peers, matching, m.privacy, width)
        })
    }
}

/// All lines of the details, from top to bottom.
pub open spec fn all_detail_lines(
    m: PeerModel,
    row: PeerFacts,
    now: u128,
    width: int,
) -> Seq<DetailView> {
    title_lines(m, row) + policy_lines(m, row, now) + history_lines(m, row, width)
}

fn push_title_lines(lines: &mut Vec<DetailLine>, app_state: &AppState, row: &PeerRowModel)
    ensures
        detail_views(final(lines)@) == detail_views(old(lines)@) + title_lines(
            app_state.peers(),
            row@,
        ),
{
    let ghost base = detail_views(lines@);
    let endpoint_count = row.endpoint_count(app_state);
    let mut counts = join3("  •  ", format_number(row.torrent_count as u64).as_str(), " torrent");
    counts.append(plural_suffix(row.torrent_count));
    counts.append("  •  ");
    counts.append(format_number(endpoint_count as u64).as_str());
    counts.append(" endpoint");
    counts.append(plural_suffix(endpoint_count));
    push_line(
        lines,
        DetailLine::Title {
            address: display_ip(row.ip, app_state.anonymize_torrent_names),
            state: row.state_label(),
            counts,
        },
    );
    push_line(
        lines,
        DetailLine::Field {
            label: if contains_text(row.client_label.as_str(), ", ") {
                "Clients"
            } else {
                "Client"
            },
            value: row.client_label.clone(),
        },
    );
    push_line(lines, DetailLine::Blank);
    assert(detail_views(lines@) =~= base + title_lines(app_state.peers(), row@));
}

fn push_policy_lines(lines: &mut Vec<DetailLine>, app_state: &AppState, row: &PeerRowModel, now: u128)
    ensures
        detail_views(final(lines)@) == detail_views(old(lines)@) + policy_lines(
            app_state.peers(),
            row@,
            now,
        ),
{
    let ghost base = detail_views(lines@);
    match &row.restriction {
        Some(restriction) => {
            push_line(lines, DetailLine::Heading(owned("Policy")));
            push_line(lines, DetailLine::Reason(restriction.reason));
            push_line(
                lines,
                DetailLine::Field {
                    label: "Detected",
                    value: format_elapsed(now, restriction.detected_at),
                },
            );
            push_line(
                lines,
                DetailLine::Field {
                    label: "Expires",
                    value: format_remaining(now, restriction.blocked_until),
                },
            );
            let origin = match &restriction.torrent_info_hash {
                Some(hash) => torrent_label_for_hash(app_state, row, hash),
                None => owned("global/manual"),
            };
            push_line(lines, DetailLine::Field { label: "Origin", value: origin });
        },
        None => push_line(lines, DetailLine::Note("No active restriction")),
    }
    assert(detail_views(lines@) =~= base + policy_lines(app_state.peers(), row@, now));
}

#[verifier::loop_isolation(false)]
#[verifier::rlimit(40)]
fn push_history_lines(
    lines: &mut Vec<DetailLine>,
    app_state: &AppState,
    row: &PeerRowModel,
    available_width: u16,
)
    ensures
        detail_views(final(lines)@) == detail_views(old(lines)@) + history_lines(
            app_state.peers(),
            row@,
            available_width as int,
        ),
{
    let ghost m = app_state.peers();
    let ghost width = available_width as int;
    let ghost base = detail_views(lines@);
    push_line(lines, DetailLine::Blank);
    if row.tracked_indices.len() == 0 {
        push_line(
            lines,
            DetailLine::Note("Tracking history is unavailable for this restored policy entry."),
        );
        assert(detail_views(lines@) =~= base + history_lines(m, row@, width));
        return;
    }
    let matching = matching_detail_torrents(app_state, row);
    let mut heading = join3(
        "Per-torrent evidence  •  ",
        format_number(matching.len() as u64).as_str(),
        " of ",
    );
    heading.append(format_number(row.tracked_indices.len() as u64).as_str());
    push_line(lines, DetailLine::Heading(heading));
    if matching.len() == 0 {
        let error = search_error(
            app_state.ui.peer_management.details_search_query.as_str(),
            app_state.ui.peer_management.details_search_mode,
        );
        push_line(
            lines,
            DetailLine::Note(
                if error.is_some() {
                    "Fix the search expression to see torrents."
                } else {
                    "No torrent names match this search."
                },
            ),
        );
        assert(detail_views(lines@) =~= base + history_lines(m, row@, width));
        return;
    }
    let ghost head = detail_views(lines@);
    let mut k: usize = 0;
    assert(matching@.take(0) =~= Seq::<usize>::empty());
    assert(head + lines_on_records(m.peers, matching@.take(0), m.privacy, width) =~= head);
    while k < matching.len()
        invariant
            k <= matching@.len(),
            detail_views(lines@) == head + lines_on_records(
                m.peers,
                matching@.take(k as int),
                m.privacy,
                width,
            ),
        decreases matching@.len() - k,
    {
        let ghost next = matching@.take(k + 1);
        let ghost before = lines_on_records(m.peers, matching@.take(k as int), m.privacy, width);
        assert(next.drop_last() =~= matching@.take(k as int));
        if k > 0 {
            push_line(lines, DetailLine::Blank);
        }
        let peer = &app_state.peer_manager_view.tracked_peers[matching[k]];
        tracked_peer_detail_lines(
            lines,
            peer,
            k + 1,
            app_state.anonymize_torrent_names,
            available_width,
        );
        assert(detail_views(lines@) =~= head + lines_on_records(m.peers, next, m.privacy, width));
        k = k + 1;
    }
    assert(matching@.take(k as int) =~= matching@);
    assert(detail_views(lines@) =~= base + history_lines(m, row@, width));
}

/// All lines of the details, from top to bottom.
pub fn peer_detail_lines(
    app_state: &AppState,
    row: &PeerRowModel,
    now: u128,
    available_width: u16,
) -> (lines: Vec<DetailLine>)
    ensures
        detail_views(lines@) == all_detail_lines(
            app_state.peers(),
            row@,
            now,
            available_width as int,
        ),
{
    let mut lines: Vec<DetailLine> = Vec::new();
    assert(detail_views(lines@) =~= Seq::<DetailView>::empty());
    push_title_lines(&mut lines, app_state, row);
    push_policy_lines(&mut lines, app_state, row, now);
    push_history_lines(&mut lines, app_state, row, available_width);
    assert(detail_views(lines@) =~= all_detail_lines(
        app_state.peers(),
        row@,
        now,
        available_width as int,
    ));
    lines
}

/// The details have as many lines as their scrolling counts on.
pub proof fn detail_lines_are_counted(m: PeerModel, row: PeerFacts, now: u128, width: int)
    ensures
        all_detail_lines(m, row, now, width).len() == detail_lines(m, row),
{
    lines_on_records_are_counted(m.peers, matching_records(m, row), m.privacy, width);
}

proof fn lines_on_records_are_counted(
    peers: Seq<PeerManagerTrackedPeer>,
    records: Seq<usize>,
    privacy: bool,
    width: int,
)
    ensures
        lines_on_records(peers, records, privacy, width).len() == all_record_lines(peers, records)
            + monus(records.len() as int, 1),
    decreases records.len(),
{
    if records.len() > 0 {
        lines_on_records_are_counted(peers, records.drop_last(), privacy, width);
    }
}

/// Why a peer is restricted; the two quantities come in words.
pub open spec fn reason_detail(
    reason: PeerRestrictionReason,
    observed: Seq<char>,
    threshold: Seq<char>,
) -> Seq<char> {
    match reason {
        PeerRestrictionReason::ExcessiveUpload { .. } => "Excessive upload: "@ + observed + " / "@
            + threshold,
        PeerRestrictionReason::ExcessiveDownload { .. } => "Excessive download: "@ + observed
            + " / "@ + threshold,
        PeerRestrictionReason::ReconnectChurn { reconnects, threshold, window_secs } =>
        "Reconnect churn: "@ + decimal(reconnects as nat) + "/"@ + decimal(threshold as nat)
            + " in "@ + duration_text(window_secs as int),
        PeerRestrictionReason::Manual => "Manual restriction"@,
    }
}

/// Why a peer is restricted.
pub fn restriction_reason_detail(
    reason: &PeerRestrictionReason,
    observed: &str,
    threshold: &str,
) -> (text: String)
    ensures
        text@ == reason_detail(*reason, observed@, threshold@),
{
    match *reason {
        PeerRestrictionReason::ExcessiveUpload { .. } => {
            let mut text = join3("Excessive upload: ", observed, " / ");
            text.append(threshold);
            text
        },
        PeerRestrictionReason::ExcessiveDownload { .. } => {
            let mut text = join3("Excessive download: ", observed, " / ");
            text.append(threshold);
            text
        },
        PeerRestrictionReason::ReconnectChurn { reconnects, threshold, window_secs } => {
            let mut text = join3(
                "Reconnect churn: ",
                format_number(reconnects as u64).as_str(),
                "/",
            );
            text.append(format_number(threshold as u64).as_str());
            text.append(" in ");
            text.append(compact_duration(window_secs).as_str());
            text
        },
        PeerRestrictionReason::Manual => owned("Manual restriction"),
    }
}

/// The quantities of a line in words: bytes, two of them, and the share that the
/// first is of the second, in percent.
pub struct QuantityTexts {
    pub first: String,
    pub second: String,
    pub percent: String,
}

/// What a transfer comes to, against what is let pass.
pub open spec fn share_text(label: Seq<char>, parts: QuantityTexts) -> Seq<char> {
    label + parts.first@ + " / "@ + (parts.second@ + " ("@ + parts.percent@) + "%)"@
}

/// The words of a line of the details.
pub open spec fn line_words(line: DetailView, parts: QuantityTexts) -> Seq<char> {
    match line {
        DetailView::Blank => ""@,
        DetailView::Title(address, state, counts) => address + "  "@ + state + counts,
        DetailView::Field(label, value) => label + ": "@ + sanitized(value),
        DetailView::Reason(reason) => "Reason: "@ + sanitized(
            reason_detail(reason, parts.first@, parts.second@),
        ),
        DetailView::Heading(text) => text,
        DetailView::Note(text) => text,
        DetailView::Torrent(number, name) => number + name,
        DetailView::Hash(hash) => "  Hash "@ + hash,
        DetailView::Client(client) => "  Client "@ + sanitized(client),
        DetailView::Upload(_, _) => share_text("  Upload    "@, parts),
        DetailView::Download(_, _) => share_text("  Download  "@, parts),
        DetailView::Reconnects(count, rest) => "  Reconnects  "@ + decimal(count as nat) + rest,
        DetailView::NoEndpoints => "  Endpoints  none"@,
        DetailView::Endpoints => "  Endpoints"@,
        DetailView::Endpoint(number, address, _, _) => number + address + "  •  DL "@ + (
        parts.first@ + "  •  UL "@ + parts.second@),
    }
}

fn share_words(label: &str, parts: &QuantityTexts) -> (text: String)
    ensures
        text@ == share_text(label@, *parts),
{
    let share = join3(parts.second.as_str(), " (", parts.percent.as_str());
    let mut text = join3(label, parts.first.as_str(), " / ");
    text.append(share.as_str());
    text.append("%)");
    text
}

/// The words of a line of the details, whose quantities come in words.
pub fn detail_line_text(line: &DetailLine, parts: &QuantityTexts) -> (text: String)
    ensures
        text@ == line_words(line@, *parts),
{
    match line {
        DetailLine::Blank => owned(""),
        DetailLine::Title { address, state, counts } => {
            let mut text = join3(address.as_str(), "  ", state);
            text.append(counts.as_str());
            text
        },
        DetailLine::Field { label, value } => join3(
            label,
            ": ",
            sanitize_text(value.as_str()).as_str(),
        ),
        DetailLine::Reason(reason) => {
            let detail = restriction_reason_detail(
                reason,
                parts.first.as_str(),
                parts.second.as_str(),
            );
            join("Reason: ", sanitize_text(detail.as_str()).as_str())
        },
        DetailLine::Heading(text) => owned(text.as_str()),
        DetailLine::Note(text) => owned(text),
        DetailLine::Torrent { number, name } => join(number.as_str(), name.as_str()),
        DetailLine::Hash(hash) => join("  Hash ", hash.as_str()),
        DetailLine::Client(client) => join(
            "  Client ",
            sanitize_text(client.as_str()).as_str(),
        ),
        DetailLine::Upload { .. } => share_words("  Upload    ", parts),
        DetailLine::Download { .. } => share_words("  Download  ", parts),
        DetailLine::Reconnects { count, rest } => join3(
            "  Reconnects  ",
            format_number(*count as u64).as_str(),
            rest.as_str(),
        ),
        DetailLine::NoEndpoints => owned("  Endpoints  none"),
        DetailLine::Endpoints => owned("  Endpoints"),
        DetailLine::Endpoint { number, address, .. } => {
            let moved = join3(parts.first.as_str(), "  •  UL ", parts.second.as_str());
            let mut text = join3(number.as_str(), address.as_str(), "  •  DL ");
            text.append(moved.as_str());
            text
        },
    }
}

} // verus!
