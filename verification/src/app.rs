//! The state that the screens work on.
use crate::event_journal::EventJournalState;
use crate::geometry::Rect;
use crate::keys::KeyCode;
use crate::lists::{byte_strings, texts};
use crate::order::SortDirection;
use crate::peer_manager::{IpAddr, PeerManagerTrackedPeer, RestrictedPeer};
use crate::search::SearchMode;
use crate::tui::screens::peers::rows::PeerRowModel;
use vstd::prelude::*;

verus! {

/// Which screen is shown.
#[derive(Clone, Copy, Debug, PartialEq, Eq, Structural)]
pub enum AppMode {
    Normal,
    Help,
    Config,
    Journal,
    PeerManagement,
    TorrentManagement,
    FileBrowser,
    Other,
}

#[derive(Clone, Copy, Debug, PartialEq, Eq, Structural)]
pub enum TorrentControlState {
    Running,
    Paused,
    Deleting,
}

/// How far a torrent has come: `rank` orders torrents by their share of
/// completion, and `incomplete` says whether anything is missing.
#[derive(Clone, Copy, Debug, PartialEq, Eq, Structural)]
pub struct Completion {
    pub rank: u64,
    pub incomplete: bool,
}

/// One torrent of the session. `shown_name` is its name made fit for a terminal
/// and `masked_name` what stands for it while names are hidden.
pub struct TorrentDisplayState {
    pub info_hash: Vec<u8>,
    pub torrent_name: String,
    pub shown_name: String,
    pub masked_name: String,
    pub download_path: Option<String>,
    pub container_name: Option<String>,
    pub torrent_control_state: TorrentControlState,
    pub delete_files: bool,
    pub number_of_successfully_connected_peers: usize,
    pub listed_peers: usize,
    pub total_size: u64,
    pub completion: Completion,
    pub eta_nanos: u128,
    pub added_at_unix_secs: Option<u64>,
    pub smoothed_download_speed_bps: u64,
    pub smoothed_upload_speed_bps: u64,
}

/// A request to the session. `Other` stands for those that no draft makes.
#[derive(Clone, Debug, PartialEq, Eq)]
pub enum ControlRequest {
    Pause { info_hash_hex: String },
    Resume { info_hash_hex: String },
    Delete { info_hash_hex: String, delete_files: bool },
    Other,
}

#[verifier::ext_equal]
pub enum RequestView {
    Pause(Seq<char>),
    Resume(Seq<char>),
    Delete(Seq<char>, bool),
    Other,
}

impl View for ControlRequest {
    type V = RequestView;

    open spec fn view(&self) -> RequestView {
        match *self {
            ControlRequest::Pause { info_hash_hex } => RequestView::Pause(info_hash_hex@),
            ControlRequest::Resume { info_hash_hex } => RequestView::Resume(info_hash_hex@),
            ControlRequest::Delete { info_hash_hex, delete_files } => RequestView::Delete(
                info_hash_hex@,
                delete_files,
            ),
            ControlRequest::Other => RequestView::Other,
        }
    }
}

impl ControlRequest {
    /// Whether two requests are the same.
    pub fn same(&self, other: &ControlRequest) -> (same: bool)
        ensures
            same == (self@ == other@),
    {
        match (self, other) {
            (
                ControlRequest::Pause { info_hash_hex: a },
                ControlRequest::Pause { info_hash_hex: b },
            ) => *a == *b,
            (
                ControlRequest::Resume { info_hash_hex: a },
                ControlRequest::Resume { info_hash_hex: b },
            ) => *a == *b,
            (
                ControlRequest::Delete { info_hash_hex: a, delete_files: x },
                ControlRequest::Delete { info_hash_hex: b, delete_files: y },
            ) => *a == *b && *x == *y,
            (ControlRequest::Other, ControlRequest::Other) => true,
            _ => false,
        }
    }

    /// A copy of the request.
    pub fn copy(&self) -> (copy: ControlRequest)
        ensures
            copy@ == self@,
    {
        match self {
            ControlRequest::Pause { info_hash_hex } => ControlRequest::Pause {
                info_hash_hex: info_hash_hex.clone(),
            },
            ControlRequest::Resume { info_hash_hex } => ControlRequest::Resume {
                info_hash_hex: info_hash_hex.clone(),
            },
            ControlRequest::Delete { info_hash_hex, delete_files } => ControlRequest::Delete {
                info_hash_hex: info_hash_hex.clone(),
                delete_files: *delete_files,
            },
            ControlRequest::Other => ControlRequest::Other,
        }
    }
}

/// A drafted request for one torrent, with the state the torrent will show once
/// the request is sent.
#[derive(Clone, Debug, PartialEq, Eq)]
pub struct TorrentManagementPendingCommand {
    pub info_hash: Vec<u8>,
    pub request: ControlRequest,
    pub state: TorrentControlState,
    pub delete_files: bool,
}

#[verifier::ext_equal]
pub struct CommandView {
    pub info_hash: Seq<u8>,
    pub request: RequestView,
    pub state: TorrentControlState,
    pub delete_files: bool,
}

impl View for TorrentManagementPendingCommand {
    type V = CommandView;

    open spec fn view(&self) -> CommandView {
        CommandView {
            info_hash: self.info_hash@,
            request: self.request@,
            state: self.state,
            delete_files: self.delete_files,
        }
    }
}

pub open spec fn command_views(list: Seq<TorrentManagementPendingCommand>) -> Seq<CommandView> {
    list.map_values(|command: TorrentManagementPendingCommand| command@)
}

/// The names under review, by what will be done to them, and the bytes that
/// purging will free.
#[derive(Clone, Debug, PartialEq, Eq)]
pub struct TorrentManagementReviewCache {
    pub pause: Vec<String>,
    pub resume: Vec<String>,
    pub delete: Vec<String>,
    pub purge: Vec<String>,
    pub purge_total_bytes: u64,
}

impl Default for TorrentManagementReviewCache {
    fn default() -> (cache: TorrentManagementReviewCache)
        ensures
            cache.pause@.len() == 0,
            cache.resume@.len() == 0,
            cache.delete@.len() == 0,
            cache.purge@.len() == 0,
            cache.purge_total_bytes == 0,
    {
        TorrentManagementReviewCache {
            pause: Vec::new(),
            resume: Vec::new(),
            delete: Vec::new(),
            purge: Vec::new(),
            purge_total_bytes: 0,
        }
    }
}

#[verifier::ext_equal]
pub struct ReviewView {
    pub pause: Seq<Seq<char>>,
    pub resume: Seq<Seq<char>>,
    pub delete: Seq<Seq<char>>,
    pub purge: Seq<Seq<char>>,
    pub purge_total_bytes: int,
}

impl View for TorrentManagementReviewCache {
    type V = ReviewView;

    open spec fn view(&self) -> ReviewView {
        ReviewView {
            pause: texts(self.pause@),
            resume: texts(self.resume@),
            delete: texts(self.delete@),
            purge: texts(self.purge@),
            purge_total_bytes: self.purge_total_bytes as int,
        }
    }
}

pub open spec fn bytes_view(bytes: Option<Vec<u8>>) -> Option<Seq<u8>> {
    match bytes {
        Some(bytes) => Some(bytes@),
        None => None,
    }
}

pub open spec fn text_view(text: Option<String>) -> Option<Seq<char>> {
    match text {
        Some(text) => Some(text@),
        None => None,
    }
}

pub open spec fn review_view(cache: Option<TorrentManagementReviewCache>) -> Option<ReviewView> {
    match cache {
        Some(cache) => Some(cache@),
        None => None,
    }
}

/// The state of the torrent management screen.
pub struct TorrentManagementUiState {
    pub selected_index: usize,
    pub cursor_hash: Option<Vec<u8>>,
    pub selected_column_index: usize,
    pub sort_column_index: Option<usize>,
    pub sort_direction: SortDirection,
    pub is_searching: bool,
    pub search_query: String,
    pub search_mode: SearchMode,
    pub selected_hashes: Vec<Vec<u8>>,
    pub pending_commands: Vec<TorrentManagementPendingCommand>,
    pub confirm_submit: bool,
    pub review_scroll_offset: usize,
    pub review_cache: Option<TorrentManagementReviewCache>,
    pub status_message: Option<String>,
    pub input_latch: Option<KeyCode>,
}

#[verifier::ext_equal]
pub struct ManagementView {
    pub selected_index: int,
    pub cursor_hash: Option<Seq<u8>>,
    pub selected_column_index: int,
    pub sort_column_index: Option<usize>,
    pub sort_direction: SortDirection,
    pub is_searching: bool,
    pub search_query: Seq<char>,
    pub search_mode: SearchMode,
    pub selected_hashes: Seq<Seq<u8>>,
    pub pending_commands: Seq<CommandView>,
    pub confirm_submit: bool,
    pub review_scroll_offset: int,
    pub review_cache: Option<ReviewView>,
    pub status_message: Option<Seq<char>>,
    pub input_latch: Option<KeyCode>,
}

impl View for TorrentManagementUiState {
    type V = ManagementView;

    open spec fn view(&self) -> ManagementView {
        ManagementView {
            selected_index: self.selected_index as int,
            cursor_hash: bytes_view(self.cursor_hash),
            selected_column_index: self.selected_column_index as int,
            sort_column_index: self.sort_column_index,
            sort_direction: self.sort_direction,
            is_searching: self.is_searching,
            search_query: self.search_query@,
            search_mode: self.search_mode,
            selected_hashes: byte_strings(self.selected_hashes@),
            pending_commands: command_views(self.pending_commands@),
            confirm_submit: self.confirm_submit,
            review_scroll_offset: self.review_scroll_offset as int,
            review_cache: review_view(self.review_cache),
            status_message: text_view(self.status_message),
            input_latch: self.input_latch,
        }
    }
}

impl TorrentManagementUiState {
    /// The state of a screen that was not shown yet.
    pub open spec fn is_initial(self) -> bool {
        &&& self.selected_index == 0
        &&& self.cursor_hash is None
        &&& self.selected_column_index == 1
        &&& self.sort_column_index == Some(1usize)
        &&& self.sort_direction == SortDirection::Ascending
        &&& !self.is_searching
        &&& self.search_query@.len() == 0
        &&& self.search_mode == SearchMode::Regex
        &&& self.selected_hashes@.len() == 0
        &&& self.pending_commands@.len() == 0
        &&& !self.confirm_submit
        &&& self.review_scroll_offset == 0
        &&& self.review_cache is None
        &&& self.status_message is None
        &&& self.input_latch is None
    }
}

impl Default for TorrentManagementUiState {
    fn default() -> (state: TorrentManagementUiState)
        ensures
            state.is_initial(),
    {
        TorrentManagementUiState {
            selected_index: 0,
            cursor_hash: None,
            selected_column_index: 1,
            sort_column_index: Some(1),
            sort_direction: SortDirection::Ascending,
            is_searching: false,
            search_query: String::new(),
            search_mode: SearchMode::Regex,
            selected_hashes: Vec::new(),
            pending_commands: Vec::new(),
            confirm_submit: false,
            review_scroll_offset: 0,
            review_cache: None,
            status_message: None,
            input_latch: None,
        }
    }
}

/// Which peers are on view.
#[derive(Clone, Copy, Debug, PartialEq, Eq, Structural)]
pub enum PeerManagementFilter {
    All,
    Active,
    Recent,
    Restricted,
}

pub open spec fn next_peer_filter(filter: PeerManagementFilter) -> PeerManagementFilter {
    match filter {
        PeerManagementFilter::All => PeerManagementFilter::Active,
        PeerManagementFilter::Active => PeerManagementFilter::Recent,
        PeerManagementFilter::Recent => PeerManagementFilter::Restricted,
        PeerManagementFilter::Restricted => PeerManagementFilter::All,
    }
}

pub open spec fn previous_peer_filter(filter: PeerManagementFilter) -> PeerManagementFilter {
    match filter {
        PeerManagementFilter::All => PeerManagementFilter::Restricted,
        PeerManagementFilter::Active => PeerManagementFilter::All,
        PeerManagementFilter::Recent => PeerManagementFilter::Active,
        PeerManagementFilter::Restricted => PeerManagementFilter::Recent,
    }
}

impl PeerManagementFilter {
    /// The next filter, and after the last one the first.
    pub fn next(self) -> (filter: PeerManagementFilter)
        ensures
            filter == next_peer_filter(self),
    {
        match self {
            PeerManagementFilter::All => PeerManagementFilter::Active,
            PeerManagementFilter::Active => PeerManagementFilter::Recent,
            PeerManagementFilter::Recent => PeerManagementFilter::Restricted,
            PeerManagementFilter::Restricted => PeerManagementFilter::All,
        }
    }

    /// The filter before, and before the first one the last.
    pub fn prev(self) -> (filter: PeerManagementFilter)
        ensures
            filter == previous_peer_filter(self),
    {
        match self {
            PeerManagementFilter::All => PeerManagementFilter::Restricted,
            PeerManagementFilter::Active => PeerManagementFilter::All,
            PeerManagementFilter::Recent => PeerManagementFilter::Active,
            PeerManagementFilter::Restricted => PeerManagementFilter::Recent,
        }
    }
}

/// Stepping through the filters forth and back ends where it began.
pub proof fn peer_filters_go_round(filter: PeerManagementFilter)
    ensures
        previous_peer_filter(next_peer_filter(filter)) == filter,
        next_peer_filter(previous_peer_filter(filter)) == filter,
{
}

/// The state of the peer management screen.
pub struct PeerManagementUiState {
    pub selected_index: usize,
    pub filter: PeerManagementFilter,
    pub selected_column_index: usize,
    pub sort_column_index: Option<usize>,
    pub sort_direction: SortDirection,
    pub is_searching: bool,
    pub search_query: String,
    pub search_mode: SearchMode,
    pub show_details: bool,
    pub details_peer_ip: Option<IpAddr>,
    pub details_scroll_offset: usize,
    pub details_is_searching: bool,
    pub details_search_query: String,
    pub details_search_mode: SearchMode,
    pub status_message: Option<String>,
}

#[verifier::ext_equal]
pub struct PeerScreenView {
    pub selected_index: int,
    pub filter: PeerManagementFilter,
    pub selected_column_index: int,
    pub sort_column_index: Option<usize>,
    pub sort_direction: SortDirection,
    pub is_searching: bool,
    pub search_query: Seq<char>,
    pub search_mode: SearchMode,
    pub show_details: bool,
    pub details_peer_ip: Option<IpAddr>,
    pub details_scroll_offset: int,
    pub details_is_searching: bool,
    pub details_search_query: Seq<char>,
    pub details_search_mode: SearchMode,
    pub status_message: Option<Seq<char>>,
}

impl View for PeerManagementUiState {
    type V = PeerScreenView;

    open spec fn view(&self) -> PeerScreenView {
        PeerScreenView {
            selected_index: self.selected_index as int,
            filter: self.filter,
            selected_column_index: self.selected_column_index as int,
            sort_column_index: self.sort_column_index,
            sort_direction: self.sort_direction,
            is_searching: self.is_searching,
            search_query: self.search_query@,
            search_mode: self.search_mode,
            show_details: self.show_details,
            details_peer_ip: self.details_peer_ip,
            details_scroll_offset: self.details_scroll_offset as int,
            details_is_searching: self.details_is_searching,
            details_search_query: self.details_search_query@,
            details_search_mode: self.details_search_mode,
            status_message: text_view(self.status_message),
        }
    }
}

impl PeerManagementUiState {
    /// The state of a screen that was not shown yet.
    pub open spec fn is_initial(self) -> bool {
        &&& self.selected_index == 0
        &&& self.filter == PeerManagementFilter::All
        &&& self.selected_column_index == 9
        &&& self.sort_column_index == Some(9usize)
        &&& self.sort_direction == SortDirection::Descending
        &&& !self.is_searching
        &&& self.search_query@.len() == 0
        &&& self.search_mode == SearchMode::Regex
        &&& !self.show_details
        &&& self.details_peer_ip is None
        &&& self.details_scroll_offset == 0
        &&& !self.details_is_searching
        &&& self.details_search_query@.len() == 0
        &&& self.details_search_mode == SearchMode::Regex
        &&& self.status_message is None
    }
}

impl Default for PeerManagementUiState {
    fn default() -> (state: PeerManagementUiState)
        ensures
            state.is_initial(),
    {
        PeerManagementUiState {
            selected_index: 0,
            filter: PeerManagementFilter::All,
            selected_column_index: 9,
            sort_column_index: Some(9),
            sort_direction: SortDirection::Descending,
            is_searching: false,
            search_query: String::new(),
            search_mode: SearchMode::Regex,
            show_details: false,
            details_peer_ip: None,
            details_scroll_offset: 0,
            details_is_searching: false,
            details_search_query: String::new(),
            details_search_mode: SearchMode::Regex,
            status_message: None,
        }
    }
}

/// What the session reports of its peers.
pub struct PeerManagerView {
    pub registered_torrents: usize,
    pub tracked_peers: Vec<PeerManagerTrackedPeer>,
}

/// The peers that are kept out.
pub struct PeerPolicy {
    pub restrictions: Vec<RestrictedPeer>,
}

/// The rows of the peer table as they were last worked out, when the next
/// restriction among them ends, and how often they were worked out so far.
pub struct PeerManagementDerivedState {
    pub rows: Vec<PeerRowModel>,
    pub next_restriction_expiry: Option<u128>,
    pub recomputed: u64,
}

/// Which events are on view.
#[derive(Clone, Copy, Debug, PartialEq, Eq, Structural)]
pub enum JournalFilter {
    All,
    Queue,
    Commands,
    Health,
}

pub open spec fn next_journal_filter(filter: JournalFilter) -> JournalFilter {
    match filter {
        JournalFilter::All => JournalFilter::Queue,
        JournalFilter::Queue => JournalFilter::Commands,
        JournalFilter::Commands => JournalFilter::Health,
        JournalFilter::Health => JournalFilter::All,
    }
}

pub open spec fn previous_journal_filter(filter: JournalFilter) -> JournalFilter {
    match filter {
        JournalFilter::All => JournalFilter::Health,
        JournalFilter::Queue => JournalFilter::All,
        JournalFilter::Commands => JournalFilter::Queue,
        JournalFilter::Health => JournalFilter::Commands,
    }
}

impl JournalFilter {
    /// The next filter, and after the last one the first.
    pub fn next(self) -> (filter: JournalFilter)
        ensures
            filter == next_journal_filter(self),
    {
        match self {
            JournalFilter::All => JournalFilter::Queue,
            JournalFilter::Queue => JournalFilter::Commands,
            JournalFilter::Commands => JournalFilter::Health,
            JournalFilter::Health => JournalFilter::All,
        }
    }

    /// The filter before, and before the first one the last.
    pub fn prev(self) -> (filter: JournalFilter)
        ensures
            filter == previous_journal_filter(self),
    {
        match self {
            JournalFilter::All => JournalFilter::Health,
            JournalFilter::Queue => JournalFilter::All,
            JournalFilter::Commands => JournalFilter::Queue,
            JournalFilter::Health => JournalFilter::Commands,
        }
    }
}

/// Stepping through the filters forth and back ends where it began.
pub proof fn journal_filters_go_round(filter: JournalFilter)
    ensures
        previous_journal_filter(next_journal_filter(filter)) == filter,
        next_journal_filter(previous_journal_filter(filter)) == filter,
{
}

/// The state of the journal screen. `area` is the part of the screen that it takes
/// up.
pub struct JournalUiState {
    pub area: Rect,
    pub filter: JournalFilter,
    pub selected_index: usize,
    pub is_searching: bool,
    pub search_query: String,
    pub search_mode: SearchMode,
    pub status_message: Option<String>,
}

#[verifier::ext_equal]
pub struct JournalScreenView {
    pub area: Rect,
    pub filter: JournalFilter,
    pub selected_index: int,
    pub is_searching: bool,
    pub search_query: Seq<char>,
    pub search_mode: SearchMode,
    pub status_message: Option<Seq<char>>,
}

impl View for JournalUiState {
    type V = JournalScreenView;

    open spec fn view(&self) -> JournalScreenView {
        JournalScreenView {
            area: self.area,
            filter: self.filter,
            selected_index: self.selected_index as int,
            is_searching: self.is_searching,
            search_query: self.search_query@,
            search_mode: self.search_mode,
            status_message: text_view(self.status_message),
        }
    }
}

impl JournalUiState {
    /// The state of a screen that was not shown yet.
    pub open spec fn is_initial(self) -> bool {
        &&& self.area == (Rect { x: 0, y: 0, width: 0, height: 0 })
        &&& self.filter == JournalFilter::All
        &&& self.selected_index == 0
        &&& !self.is_searching
        &&& self.search_query@.len() == 0
        &&& self.search_mode == SearchMode::Regex
        &&& self.status_message is None
    }
}

impl Default for JournalUiState {
    fn default() -> (state: JournalUiState)
        ensures
            state.is_initial(),
    {
        JournalUiState {
            area: Rect { x: 0, y: 0, width: 0, height: 0 },
            filter: JournalFilter::All,
            selected_index: 0,
            is_searching: false,
            search_query: String::new(),
            search_mode: SearchMode::Regex,
            status_message: None,
        }
    }
}

/// A part of the help screen.
#[derive(Clone, Copy, Debug, PartialEq, Eq, Structural)]
pub enum HelpSection {
    General,
    Torrents,
    Graphs,
    Legends,
    Screens,
    Paths,
    Build,
}

/// The state of the help screen. `area` is the part of the screen that it takes up.
pub struct HelpUiState {
    pub area: Rect,
    pub active_section: HelpSection,
    pub scroll_offset: usize,
    pub is_searching: bool,
    pub search_query: String,
    pub search_mode: SearchMode,
}

#[verifier::ext_equal]
pub struct HelpScreenView {
    pub area: Rect,
    pub active_section: HelpSection,
    pub scroll_offset: int,
    pub is_searching: bool,
    pub search_query: Seq<char>,
    pub search_mode: SearchMode,
}

impl View for HelpUiState {
    type V = HelpScreenView;

    open spec fn view(&self) -> HelpScreenView {
        HelpScreenView {
            area: self.area,
            active_section: self.active_section,
            scroll_offset: self.scroll_offset as int,
            is_searching: self.is_searching,
            search_query: self.search_query@,
            search_mode: self.search_mode,
        }
    }
}

impl HelpUiState {
    /// The state of a screen that was not shown yet.
    pub open spec fn is_initial(self) -> bool {
        &&& self.area == (Rect { x: 0, y: 0, width: 0, height: 0 })
        &&& self.active_section == HelpSection::General
        &&& self.scroll_offset == 0
        &&& !self.is_searching
        &&& self.search_query@.len() == 0
        &&& self.search_mode == SearchMode::Regex
    }
}

impl Default for HelpUiState {
    fn default() -> (state: HelpUiState)
        ensures
            state.is_initial(),
    {
        HelpUiState {
            area: Rect { x: 0, y: 0, width: 0, height: 0 },
            active_section: HelpSection::General,
            scroll_offset: 0,
            is_searching: false,
            search_query: String::new(),
            search_mode: SearchMode::Regex,
        }
    }
}

/// The state of the screens, and what they share. `search_query` is what the
/// dashboard searches for.
pub struct UiState {
    pub needs_redraw: bool,
    pub search_query: String,
    pub help: HelpUiState,
    pub journal: JournalUiState,
    pub peer_management: PeerManagementUiState,
    pub torrent_management: TorrentManagementUiState,
}

/// The state of the program as far as the screens read it.
pub struct AppState {
    pub mode: AppMode,
    pub screen_area: Rect,
    pub ui: UiState,
    pub torrents: Vec<TorrentDisplayState>,
    pub torrent_list_order: Vec<Vec<u8>>,
    pub anonymize_torrent_names: bool,
    pub system_warning: Option<String>,
    pub cluster_role_label: Option<String>,
    pub cluster_runtime_label: Option<String>,
    pub event_journal_state: EventJournalState,
    pub peer_manager_view: PeerManagerView,
    pub peer_policy: PeerPolicy,
    pub peer_management_derived: PeerManagementDerivedState,
}

/// The hashes of the torrents, in their order.
pub open spec fn torrent_hashes(torrents: Seq<TorrentDisplayState>) -> Seq<Seq<u8>> {
    torrents.map_values(|torrent: TorrentDisplayState| torrent.info_hash@)
}

impl AppState {
    /// No two torrents have the same hash, and the screen and the parts of it that
    /// the journal and the help take up lie within the range of coordinates.
    pub open spec fn well_formed(self) -> bool {
        &&& torrent_hashes(self.torrents@).no_duplicates()
        &&& self.screen_area.valid()
        &&& self.ui.journal.area.valid()
        &&& self.ui.help.area.valid()
    }
}

impl UiState {
    /// Nothing was shown yet, and nothing is searched for.
    pub open spec fn is_initial(self) -> bool {
        &&& !self.needs_redraw
        &&& self.search_query@.len() == 0
        &&& self.help.is_initial()
        &&& self.journal.is_initial()
        &&& self.peer_management.is_initial()
        &&& self.torrent_management.is_initial()
    }
}

impl Default for UiState {
    fn default() -> (state: UiState)
        ensures
            state.is_initial(),
    {
        UiState {
            needs_redraw: false,
            search_query: String::new(),
            help: HelpUiState::default(),
            journal: JournalUiState::default(),
            peer_management: PeerManagementUiState::default(),
            torrent_management: TorrentManagementUiState::default(),
        }
    }
}

impl Default for AppState {
    fn default() -> (state: AppState)
        ensures
            state.mode == AppMode::Normal,
            state.screen_area == (Rect { x: 0, y: 0, width: 0, height: 0 }),
            state.ui.is_initial(),
            state.torrents@.len() == 0,
            state.torrent_list_order@.len() == 0,
            !state.anonymize_torrent_names,
            state.system_warning is None,
            state.cluster_role_label is None,
            state.cluster_runtime_label is None,
            state.event_journal_state.entries@.len() == 0,
            state.peer_manager_view.registered_torrents == 0,
            state.peer_manager_view.tracked_peers@.len() == 0,
            state.peer_policy.restrictions@.len() == 0,
            state.peer_management_derived.rows@.len() == 0,
            state.peer_management_derived.next_restriction_expiry is None,
            state.peer_management_derived.recomputed == 0,
            state.well_formed(),
    {
        AppState {
            mode: AppMode::Normal,
            screen_area: Rect { x: 0, y: 0, width: 0, height: 0 },
            ui: UiState::default(),
            torrents: Vec::new(),
            torrent_list_order: Vec::new(),
            anonymize_torrent_names: false,
            system_warning: None,
            cluster_role_label: None,
            cluster_runtime_label: None,
            event_journal_state: EventJournalState { entries: Vec::new() },
            peer_manager_view: PeerManagerView {
                registered_torrents: 0,
                tracked_peers: Vec::new(),
            },
            peer_policy: PeerPolicy { restrictions: Vec::new() },
            peer_management_derived: PeerManagementDerivedState {
                rows: Vec::new(),
                next_restriction_expiry: None,
                recomputed: 0,
            },
        }
    }
}

} // verus!
