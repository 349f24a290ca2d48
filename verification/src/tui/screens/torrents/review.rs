//! The review of the drafts before they are sent: its names, its lines, and
//! where it stands on the screen.
use crate::app::{
    command_views, AppState, CommandView, ControlRequest, ManagementView, RequestView, ReviewView,
    TorrentDisplayState, TorrentManagementPendingCommand, TorrentManagementReviewCache,
};
use crate::geometry::{
    asked_by_all, frame_inner, framed, max_int, min_int, monus, one_minimum, split_vertical,
    vertical_spans, Constraint, Rect,
};
use crate::lists::{kept, sort_texts, sorted_texts, texts};
use crate::text::{first_chars, hex_encode, hex_text, join};
use crate::tui::screens::torrents::model::ManagementModel;
use crate::tui::screens::torrents::rows::{capped, find, find_torrent};
use vstd::prelude::*;
use vstd::string::StringExecFns;

verus! {

/// What a draft will do to a torrent.
#[derive(Clone, Copy, Debug, PartialEq, Eq, Structural)]
pub enum ManagementReviewAction {
    Pause,
    Resume,
    Remove,
    Purge,
}

pub open spec fn action_title(action: ManagementReviewAction) -> Seq<char> {
    match action {
        ManagementReviewAction::Pause => "PAUSE"@,
        ManagementReviewAction::Resume => "RESUME"@,
        ManagementReviewAction::Remove => "REMOVE"@,
        ManagementReviewAction::Purge => "PURGE"@,
    }
}

impl ManagementReviewAction {
    pub fn title(self) -> (title: &'static str)
        ensures
            title@ == action_title(self),
    {
        match self {
            ManagementReviewAction::Pause => "PAUSE",
            ManagementReviewAction::Resume => "RESUME",
            ManagementReviewAction::Remove => "REMOVE",
            ManagementReviewAction::Purge => "PURGE",
        }
    }
}

/// What a request will do, if it is one that is reviewed.
pub open spec fn action_of(request: RequestView) -> Option<ManagementReviewAction> {
    match request {
        RequestView::Pause(_) => Some(ManagementReviewAction::Pause),
        RequestView::Resume(_) => Some(ManagementReviewAction::Resume),
        RequestView::Delete(_, true) => Some(ManagementReviewAction::Purge),
        RequestView::Delete(_, false) => Some(ManagementReviewAction::Remove),
        RequestView::Other => None,
    }
}

pub(crate) fn request_action(request: &ControlRequest) -> (action: Option<ManagementReviewAction>)
    ensures
        action == action_of(request@),
{
    match request {
        ControlRequest::Pause { .. } => Some(ManagementReviewAction::Pause),
        ControlRequest::Resume { .. } => Some(ManagementReviewAction::Resume),
        ControlRequest::Delete { delete_files, .. } => if *delete_files {
            Some(ManagementReviewAction::Purge)
        } else {
            Some(ManagementReviewAction::Remove)
        },
        ControlRequest::Other => None,
    }
}

// --------------------------------------------------------------- the summary

/// The drafts that do one thing.
pub open spec fn drafts_of(pending: Seq<CommandView>, action: ManagementReviewAction) -> Seq<
    CommandView,
> {
    kept(pending, |command: CommandView| action_of(command.request) == Some(action))
}

/// How many drafts there are of each kind.
#[derive(Clone, Copy, Debug, PartialEq, Eq, Structural)]
pub struct PendingManagementSummary {
    pub pause_count: usize,
    pub resume_count: usize,
    pub remove_count: usize,
    pub purge_count: usize,
}

/// Every draft is of one kind at most.
pub proof fn drafts_add_up(pending: Seq<CommandView>)
    ensures
        drafts_of(pending, ManagementReviewAction::Pause).len() + drafts_of(
            pending,
            ManagementReviewAction::Resume,
        ).len() + drafts_of(pending, ManagementReviewAction::Remove).len() + drafts_of(
            pending,
            ManagementReviewAction::Purge,
        ).len() <= pending.len(),
    decreases pending.len(),
{
    if pending.len() > 0 {
        drafts_add_up(pending.drop_last());
    }
}

/// How many drafts there are of each kind.
pub fn pending_management_summary(app_state: &AppState) -> (summary: PendingManagementSummary)
    ensures
        ({
            let pending = app_state.management().tm.pending_commands;
            &&& summary.pause_count == drafts_of(pending, ManagementReviewAction::Pause).len()
            &&& summary.resume_count == drafts_of(pending, ManagementReviewAction::Resume).len()
            &&& summary.remove_count == drafts_of(pending, ManagementReviewAction::Remove).len()
            &&& summary.purge_count == drafts_of(pending, ManagementReviewAction::Purge).len()
        }),
{
    let commands = &app_state.ui.torrent_management.pending_commands;
    let ghost all = command_views(commands@);
    let mut summary = PendingManagementSummary {
        pause_count: 0,
        resume_count: 0,
        remove_count: 0,
        purge_count: 0,
    };
    let mut k: usize = 0;
    while k < commands.len()
        invariant
            k <= commands@.len(),
            all == command_views(commands@),
            summary.pause_count == drafts_of(
                all.take(k as int),
                ManagementReviewAction::Pause,
            ).len(),
            summary.resume_count == drafts_of(
                all.take(k as int),
                ManagementReviewAction::Resume,
            ).len(),
            summary.remove_count == drafts_of(
                all.take(k as int),
                ManagementReviewAction::Remove,
            ).len(),
            summary.purge_count == drafts_of(
                all.take(k as int),
                ManagementReviewAction::Purge,
            ).len(),
        decreases commands@.len() - k,
    {
        proof {
            drafts_add_up(all.take(k as int));
            assert(all.take(k + 1).drop_last() =~= all.take(k as int));
            assert(all.take(k + 1).last() == commands@[k as int]@);
        }
        match request_action(&commands[k].request) {
            Some(ManagementReviewAction::Pause) => {
                summary.pause_count = summary.pause_count + 1;
            },
            Some(ManagementReviewAction::Resume) => {
                summary.resume_count = summary.resume_count + 1;
            },
            Some(ManagementReviewAction::Remove) => {
                summary.remove_count = summary.remove_count + 1;
            },
            Some(ManagementReviewAction::Purge) => {
                summary.purge_count = summary.purge_count + 1;
            },
            None => {},
        }
        k = k + 1;
    }
    assert(all.take(k as int) =~= all);
    summary
}

pub open spec fn present(n: int) -> int {
    if n > 0 {
        1
    } else {
        0
    }
}

/// The lines of a review with so many names of each kind: each kind that occurs
/// has a header and its names, and a blank line lies between two kinds.
pub open spec fn review_lines(pause: int, resume: int, remove: int, purge: int) -> int {
    let kinds = present(pause) + present(resume) + present(remove) + present(purge);
    pause + resume + remove + purge + kinds + monus(kinds, 1)
}

pub open spec fn capped_size(n: int) -> int {
    min_int(n, usize::MAX as int)
}

/// The lines of a review, from the number of drafts alone.
pub fn pending_management_review_summary_line_count(summary: &PendingManagementSummary) -> (lines:
    usize)
    ensures
        lines == capped_size(
            review_lines(
                summary.pause_count as int,
                summary.resume_count as int,
                summary.remove_count as int,
                summary.purge_count as int,
            ),
        ),
{
    let total = summary.pause_count.saturating_add(summary.resume_count).saturating_add(
        summary.remove_count,
    ).saturating_add(summary.purge_count);
    let mut kinds: usize = 0;
    if summary.pause_count > 0 {
        kinds = kinds + 1;
    }
    if summary.resume_count > 0 {
        kinds = kinds + 1;
    }
    if summary.remove_count > 0 {
        kinds = kinds + 1;
    }
    if summary.purge_count > 0 {
        kinds = kinds + 1;
    }
    total.saturating_add(kinds).saturating_add(kinds.saturating_sub(1))
}

// ----------------------------------------------------------------- the names

/// The name under which a draft is reviewed: that of its torrent as the table
/// shows it, or the start of the hash where the torrent is gone.
pub open spec fn review_name(
    torrents: Seq<TorrentDisplayState>,
    anonymize: bool,
    hash: Seq<u8>,
) -> Seq<char> {
    match find(torrents, hash) {
        Some(i) => if anonymize {
            torrents[i].masked_name@
        } else {
            torrents[i].shown_name@
        },
        None => "unknown torrent "@ + if hex_text(hash).len() <= 8 {
            hex_text(hash)
        } else {
            hex_text(hash).take(8)
        },
    }
}

/// The name under which a draft is reviewed.
pub fn pending_management_command_display_name(
    app_state: &AppState,
    command: &TorrentManagementPendingCommand,
) -> (name: String)
    ensures
        name@ == review_name(
            app_state.torrents@,
            app_state.anonymize_torrent_names,
            command.info_hash@,
        ),
{
    match find_torrent(&app_state.torrents, &command.info_hash) {
        Some(i) => if app_state.anonymize_torrent_names {
            app_state.torrents[i].masked_name.clone()
        } else {
            app_state.torrents[i].shown_name.clone()
        },
        None => {
            let hash = hex_encode(&command.info_hash);
            let start = first_chars(hash.as_str(), 8);
            join("unknown torrent ", start.as_str())
        },
    }
}

pub open spec fn size_of_torrent(torrents: Seq<TorrentDisplayState>, hash: Seq<u8>) -> int {
    match find(torrents, hash) {
        Some(i) => torrents[i].total_size as int,
        None => 0,
    }
}

/// The size of a draft's torrent.
pub fn pending_management_command_total_size(
    app_state: &AppState,
    command: &TorrentManagementPendingCommand,
) -> (size: u64)
    ensures
        size == size_of_torrent(app_state.torrents@, command.info_hash@),
{
    match find_torrent(&app_state.torrents, &command.info_hash) {
        Some(i) => app_state.torrents[i].total_size,
        None => 0,
    }
}

/// The bytes that the drafts to purge will free, as far as a machine can count.
pub open spec fn purged_bytes(torrents: Seq<TorrentDisplayState>, pending: Seq<CommandView>) -> int
    decreases pending.len(),
{
    if pending.len() == 0 {
        0
    } else {
        let sum = purged_bytes(torrents, pending.drop_last());
        if action_of(pending.last().request) == Some(ManagementReviewAction::Purge) {
            capped(sum + size_of_torrent(torrents, pending.last().info_hash))
        } else {
            sum
        }
    }
}

/// The names of the drafts that do one thing, in the order of the drafts.
pub open spec fn names_of(
    torrents: Seq<TorrentDisplayState>,
    anonymize: bool,
    pending: Seq<CommandView>,
    action: ManagementReviewAction,
) -> Seq<Seq<char>>
    decreases pending.len(),
{
    if pending.len() == 0 {
        Seq::empty()
    } else {
        let head = names_of(torrents, anonymize, pending.drop_last(), action);
        if action_of(pending.last().request) == Some(action) {
            head.push(review_name(torrents, anonymize, pending.last().info_hash))
        } else {
            head
        }
    }
}

/// There are as many names as drafts.
pub proof fn one_name_per_draft(
    torrents: Seq<TorrentDisplayState>,
    anonymize: bool,
    pending: Seq<CommandView>,
    action: ManagementReviewAction,
)
    ensures
        names_of(torrents, anonymize, pending, action).len() == drafts_of(pending, action).len(),
    decreases pending.len(),
{
    if pending.len() > 0 {
        one_name_per_draft(torrents, anonymize, pending.drop_last(), action);
    }
}

/// What is under review: the names of each kind in alphabetical order, and the
/// bytes that purging will free.
pub open spec fn review_of(m: ManagementModel) -> ReviewView {
    let pending = m.tm.pending_commands;
    ReviewView {
        pause: sorted_texts(names_of(m.torrents, m.anonymize, pending, ManagementReviewAction::Pause)),
        resume: sorted_texts(names_of(m.torrents, m.anonymize, pending, ManagementReviewAction::Resume)),
        delete: sorted_texts(names_of(m.torrents, m.anonymize, pending, ManagementReviewAction::Remove)),
        purge: sorted_texts(names_of(m.torrents, m.anonymize, pending, ManagementReviewAction::Purge)),
        purge_total_bytes: purged_bytes(m.torrents, pending),
    }
}

/// What is under review.
pub fn pending_management_review_groups(app_state: &AppState) -> (groups:
    TorrentManagementReviewCache)
    ensures
        groups@ == review_of(app_state.management()),
{
    let commands = &app_state.ui.torrent_management.pending_commands;
    let ghost m = app_state.management();
    let ghost all = command_views(commands@);
    let mut pause: Vec<String> = Vec::new();
    let mut resume: Vec<String> = Vec::new();
    let mut delete: Vec<String> = Vec::new();
    let mut purge: Vec<String> = Vec::new();
    let mut purge_total_bytes: u64 = 0;
    let mut k: usize = 0;
    assert(texts(pause@) =~= Seq::<Seq<char>>::empty());
    while k < commands.len()
        invariant
            k <= commands@.len(),
            m == app_state.management(),
            all == command_views(commands@),
            texts(pause@) == names_of(
                m.torrents,
                m.anonymize,
                all.take(k as int),
                ManagementReviewAction::Pause,
            ),
            texts(resume@) == names_of(
                m.torrents,
                m.anonymize,
                all.take(k as int),
                ManagementReviewAction::Resume,
            ),
            texts(delete@) == names_of(
                m.torrents,
                m.anonymize,
                all.take(k as int),
                ManagementReviewAction::Remove,
            ),
            texts(purge@) == names_of(
                m.torrents,
                m.anonymize,
                all.take(k as int),
                ManagementReviewAction::Purge,
            ),
            purge_total_bytes == purged_bytes(m.torrents, all.take(k as int)),
        decreases commands@.len() - k,
    {
        let command = &commands[k];
        let name = pending_management_command_display_name(app_state, command);
        let ghost shown = name@;
        proof {
            assert(all.take(k + 1).drop_last() =~= all.take(k as int));
            assert(all.take(k + 1).last() == command@);
        }
        match request_action(&command.request) {
            Some(ManagementReviewAction::Pause) => {
                let ghost was = texts(pause@);
                pause.push(name);
                assert(texts(pause@) =~= was.push(shown));
            },
            Some(ManagementReviewAction::Resume) => {
                let ghost was = texts(resume@);
                resume.push(name);
                assert(texts(resume@) =~= was.push(shown));
            },
            Some(ManagementReviewAction::Remove) => {
                let ghost was = texts(delete@);
                delete.push(name);
                assert(texts(delete@) =~= was.push(shown));
            },
            Some(ManagementReviewAction::Purge) => {
                purge_total_bytes =
                purge_total_bytes.saturating_add(
                    pending_management_command_total_size(app_state, command),
                );
                let ghost was = texts(purge@);
                purge.push(name);
                assert(texts(purge@) =~= was.push(shown));
            },
            None => {},
        }
        k = k + 1;
    }
    assert(all.take(k as int) =~= all);
    TorrentManagementReviewCache {
        pause: sort_texts(&pause),
        resume: sort_texts(&resume),
        delete: sort_texts(&delete),
        purge: sort_texts(&purge),
        purge_total_bytes,
    }
}

/// The number of names under review.
pub fn pending_management_review_total(groups: &TorrentManagementReviewCache) -> (total: usize)
    ensures
        total == capped_size(
            (groups@.pause.len() + groups@.resume.len() + groups@.delete.len()
                + groups@.purge.len()) as int,
        ),
{
    groups.pause.len().saturating_add(groups.resume.len()).saturating_add(
        groups.delete.len(),
    ).saturating_add(groups.purge.len())
}

// ------------------------------------------------------------- the geometry

/// The height of the review on a screen: 88 per cent, but no less than twelve
/// rows, as far as there are twelve.
pub open spec fn popup_height(frame_height: int) -> int {
    min_int(
        max_int(min_int(frame_height * 88, u16::MAX as int) / 100, min_int(frame_height, 12)),
        frame_height,
    )
}

/// `u16`'s `saturating_mul`.
fn times_capped(a: u16, b: u16) -> (product: u16)
    requires
        b <= 100,
    ensures
        product == min_int(a * b, u16::MAX as int),
{
    assert(a * b <= 65535 * 100) by (nonlinear_arith)
        requires
            a <= 65535,
            b <= 100,
    ;
    let wide: u32 = a as u32 * b as u32;
    if wide > 65535 {
        65535
    } else {
        wide as u16
    }
}

fn smaller(a: u16, b: u16) -> (least: u16)
    ensures
        least == min_int(a as int, b as int),
{
    if a <= b {
        a
    } else {
        b
    }
}

fn larger(a: u16, b: u16) -> (most: u16)
    ensures
        most == max_int(a as int, b as int),
{
    if a >= b {
        a
    } else {
        b
    }
}

pub fn management_review_popup_height(frame_height: u16) -> (height: u16)
    ensures
        height == popup_height(frame_height as int),
{
    smaller(
        larger(times_capped(frame_height, 88) / 100, smaller(frame_height, 12)),
        frame_height,
    )
}

/// One cell of padding on each side, if there is any width.
pub fn management_review_horizontal_padding(popup_width: u16) -> (padding: u16)
    ensures
        padding == if popup_width > 0 {
            1int
        } else {
            0
        },
{
    if popup_width > 0 {
        1
    } else {
        0
    }
}

/// What is inside the frame of the review.
pub open spec fn review_inner(popup: Rect) -> Rect {
    framed(
        popup,
        if popup.width > 0 {
            1
        } else {
            0
        },
        0,
    )
}

/// What is inside the frame of the review.
pub fn management_review_inner_area(popup_area: Rect) -> (inner: Rect)
    requires
        popup_area.valid(),
    ensures
        inner == review_inner(popup_area),
{
    frame_inner(popup_area, management_review_horizontal_padding(popup_area.width), 0)
}

pub open spec fn review_footer_height(inner_height: int) -> int {
    min_int(
        if inner_height >= 8 {
            2
        } else {
            1
        },
        monus(inner_height, 1),
    )
}

pub open spec fn review_summary_height(inner_height: int) -> int {
    min_int(
        if inner_height >= 9 {
            3
        } else {
            2
        },
        monus(monus(inner_height, review_footer_height(inner_height)), 1),
    )
}

/// The height that summary and footer leave to the names. It is at least one row
/// where there is any.
pub open spec fn review_body_height(inner_height: int) -> int {
    inner_height - review_footer_height(inner_height) - review_summary_height(inner_height)
}

/// A review with any room at all shows at least one line of its body.
pub proof fn review_body_has_a_row(inner_height: int)
    requires
        inner_height >= 1,
    ensures
        review_body_height(inner_height) >= 1,
{
}

/// A taller review never shows fewer lines.
pub proof fn review_body_grows(inner_height: int, taller: int)
    requires
        0 <= inner_height <= taller,
    ensures
        review_body_height(inner_height) <= review_body_height(taller),
{
}

/// The parts of the review.
#[derive(Clone, Copy, Debug, PartialEq, Eq, Structural)]
pub struct ManagementReviewRegions {
    pub summary: Rect,
    pub body: Rect,
    pub footer: Rect,
    pub compact: bool,
}

/// The parts of a review that fills the given area, one below the other.
pub fn management_review_regions(popup_area: Rect) -> (regions: ManagementReviewRegions)
    requires
        popup_area.valid(),
    ensures
        ({
            let inner = review_inner(popup_area);
            let height = inner.height as int;
            &&& regions.summary == (Rect {
                height: review_summary_height(height) as u16,
                ..inner
            })
            &&& regions.body.x == inner.x && regions.body.width == inner.width
            &&& regions.body.y == inner.y + review_summary_height(height)
            &&& regions.body.height == review_body_height(height)
            &&& regions.footer.x == inner.x && regions.footer.width == inner.width
            &&& regions.footer.y == regions.body.y + regions.body.height
            &&& regions.footer.height == review_footer_height(height)
            &&& regions.compact == (inner.width < 50 || review_summary_height(height) < 3
                || review_footer_height(height) < 2)
        }),
{
    let inner = management_review_inner_area(popup_area);
    let footer_target: u16 = if inner.height >= 8 {
        2
    } else {
        1
    };
    let footer_height = smaller(footer_target, inner.height.saturating_sub(1));
    let summary_target: u16 = if inner.height >= 9 {
        3
    } else {
        2
    };
    let summary_height = smaller(
        summary_target,
        inner.height.saturating_sub(footer_height).saturating_sub(1),
    );
    let compact = inner.width < 50 || summary_height < 3 || footer_height < 2;
    let mut parts: Vec<Constraint> = Vec::new();
    parts.push(Constraint::Length(summary_height));
    parts.push(Constraint::Min(1));
    parts.push(Constraint::Length(footer_height));
    proof {
        reveal_with_fuel(asked_by_all, 4);
        assert(one_minimum(parts@, 1));
    }
    let regions = split_vertical(inner, &parts);
    let ghost spans = vertical_spans(regions@);
    assert(spans.len() == 3);
    assert(spans[0] == (regions@[0].y as int, regions@[0].height as int));
    assert(spans[1] == (regions@[1].y as int, regions@[1].height as int));
    assert(spans[2] == (regions@[2].y as int, regions@[2].height as int));
    ManagementReviewRegions {
        summary: regions[0],
        body: regions[1],
        footer: regions[2],
        compact,
    }
}

/// The height of the body of a review on a screen.
pub open spec fn body_height_on(screen: Rect) -> int {
    review_body_height(monus(popup_height(screen.height as int), 2))
}

/// The height of the body of a review on a screen.
pub fn management_review_body_height(frame_area: Rect) -> (height: u16)
    ensures
        height == body_height_on(frame_area),
{
    management_review_regions(
        Rect::new(0, 0, frame_area.width, management_review_popup_height(frame_area.height)),
    ).body.height
}

/// The lines that paging moves by: one less than the body shows, but at least one.
pub open spec fn review_page(screen: Rect) -> int {
    max_int(monus(body_height_on(screen), 1), 1)
}

pub fn management_review_page_lines(app_state: &AppState) -> (lines: usize)
    ensures
        lines == review_page(app_state.screen_area),
{
    larger(management_review_body_height(app_state.screen_area).saturating_sub(1), 1) as usize
}

/// The lines of the review of some drafts.
pub open spec fn lines_under_review(pending: Seq<CommandView>) -> int {
    review_lines(
        drafts_of(pending, ManagementReviewAction::Pause).len() as int,
        drafts_of(pending, ManagementReviewAction::Resume).len() as int,
        drafts_of(pending, ManagementReviewAction::Remove).len() as int,
        drafts_of(pending, ManagementReviewAction::Purge).len() as int,
    )
}

/// How far a review can be scrolled: until its last line is at the bottom.
pub open spec fn max_review_scroll(m: ManagementModel) -> int {
    if !m.tm.confirm_submit {
        0
    } else {
        monus(capped_size(lines_under_review(m.tm.pending_commands)), body_height_on(m.screen))
    }
}

/// How far a review can be scrolled.
pub fn max_management_review_scroll_offset(app_state: &AppState) -> (offset: usize)
    ensures
        offset == max_review_scroll(app_state.management()),
{
    if !app_state.ui.torrent_management.confirm_submit {
        return 0;
    }
    let summary = pending_management_summary(app_state);
    pending_management_review_summary_line_count(&summary).saturating_sub(
        management_review_body_height(app_state.screen_area) as usize,
    )
}

pub open spec fn review_scroll_clamped(m: ManagementModel) -> ManagementModel {
    m.with_tm(
        ManagementView {
            review_scroll_offset: min_int(m.tm.review_scroll_offset, max_review_scroll(m)),
            ..m.tm
        },
    )
}

/// Keeps the scroll position within the review.
pub fn clamp_management_review_scroll(app_state: &mut AppState)
    ensures
        final(app_state).management() == review_scroll_clamped(old(app_state).management()),
        old(app_state).same_but_management(*final(app_state)),
{
    if !app_state.ui.torrent_management.confirm_submit {
        app_state.ui.torrent_management.review_scroll_offset = 0;
        return;
    }
    let max_scroll = max_management_review_scroll_offset(app_state);
    if app_state.ui.torrent_management.review_scroll_offset > max_scroll {
        app_state.ui.torrent_management.review_scroll_offset = max_scroll;
    }
}

/// The review brought into line with the drafts: without drafts there is none,
/// and an open one has its names at hand and is scrolled no further than it goes.
pub open spec fn review_normalized(m: ManagementModel) -> ManagementModel {
    if m.tm.pending_commands.len() == 0 {
        m.with_tm(
            ManagementView {
                confirm_submit: false,
                review_scroll_offset: 0,
                review_cache: None,
                ..m.tm
            },
        )
    } else if m.tm.confirm_submit {
        let clamped = review_scroll_clamped(m);
        clamped.with_tm(
            ManagementView {
                review_cache: if m.tm.review_cache is None {
                    Some(review_of(m))
                } else {
                    m.tm.review_cache
                },
                ..clamped.tm
            },
        )
    } else {
        m.with_tm(ManagementView { review_scroll_offset: 0, review_cache: None, ..m.tm })
    }
}

/// Collects the names under review.
pub fn refresh_pending_management_review_cache(app_state: &mut AppState)
    ensures
        final(app_state).management() == old(app_state).management().with_tm(
            ManagementView {
                review_cache: Some(review_of(old(app_state).management())),
                ..old(app_state).management().tm
            },
        ),
        old(app_state).same_but_management(*final(app_state)),
{
    let groups = pending_management_review_groups(app_state);
    app_state.ui.torrent_management.review_cache = Some(groups);
}

/// Brings the review into line with the drafts.
pub fn normalize_management_review_state(app_state: &mut AppState)
    ensures
        final(app_state).management() == review_normalized(old(app_state).management()),
        old(app_state).same_but_management(*final(app_state)),
{
    assert(app_state.management().tm.pending_commands.len()
        == app_state.ui.torrent_management.pending_commands@.len());
    if app_state.ui.torrent_management.pending_commands.len() == 0 {
        app_state.ui.torrent_management.confirm_submit = false;
        app_state.ui.torrent_management.review_scroll_offset = 0;
        app_state.ui.torrent_management.review_cache = None;
    } else if app_state.ui.torrent_management.confirm_submit {
        clamp_management_review_scroll(app_state);
        if app_state.ui.torrent_management.review_cache.is_none() {
            refresh_pending_management_review_cache(app_state);
        }
    } else {
        app_state.ui.torrent_management.review_scroll_offset = 0;
        app_state.ui.torrent_management.review_cache = None;
    }
}

} // verus!
