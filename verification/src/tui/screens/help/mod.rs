//! The help screen: its sections, its search, and where its parts go.
use crate::app::{text_view, AppMode, AppState, HelpScreenView, HelpSection, UiState};
use crate::geometry::{
    asked_by_all, frame_inner, framed, max_int, min_int, monus, one_minimum, split_vertical,
    vertical_spans, Constraint, Rect,
};
use crate::keys::{KeyCode, KeyEvent, KeyEventKind, TerminalEvent};
use crate::lists::kept;
use crate::search::{matches_query, other_mode, query_matches, toggle_search_mode, SearchMode};
use crate::text::{join3, same_text, trim, trimmed, without_last};
use crate::tui::screens::help::manual::{
    build_help_items, item_views, manual, HelpFacts, HelpItem, HelpItemView,
};
use vstd::prelude::*;
use vstd::string::{StrSliceExecFns, StringExecFns};

pub mod laws;
pub mod manual;
pub mod screen;

verus! {

// ---------------------------------------------------------------- the sections

/// The sections in their order.
pub open spec fn help_sections() -> Seq<HelpSection> {
    seq![
        HelpSection::General,
        HelpSection::Torrents,
        HelpSection::Graphs,
        HelpSection::Legends,
        HelpSection::Screens,
        HelpSection::Paths,
        HelpSection::Build,
    ]
}

pub open spec fn section_name(section: HelpSection) -> Seq<char> {
    match section {
        HelpSection::General => "General"@,
        HelpSection::Torrents => "Torrents"@,
        HelpSection::Graphs => "Graphs"@,
        HelpSection::Legends => "Legends"@,
        HelpSection::Screens => "Screens"@,
        HelpSection::Paths => "Paths"@,
        HelpSection::Build => "Build"@,
    }
}

pub open spec fn next_section(section: HelpSection) -> HelpSection {
    match section {
        HelpSection::General => HelpSection::Torrents,
        HelpSection::Torrents => HelpSection::Graphs,
        HelpSection::Graphs => HelpSection::Legends,
        HelpSection::Legends => HelpSection::Screens,
        HelpSection::Screens => HelpSection::Paths,
        HelpSection::Paths => HelpSection::Build,
        HelpSection::Build => HelpSection::General,
    }
}

pub open spec fn previous_section(section: HelpSection) -> HelpSection {
    match section {
        HelpSection::General => HelpSection::Build,
        HelpSection::Torrents => HelpSection::General,
        HelpSection::Graphs => HelpSection::Torrents,
        HelpSection::Legends => HelpSection::Graphs,
        HelpSection::Screens => HelpSection::Legends,
        HelpSection::Paths => HelpSection::Screens,
        HelpSection::Build => HelpSection::Paths,
    }
}

pub open spec fn section_words(section: HelpSection) -> Seq<char> {
    match section {
        HelpSection::General =>
            "Move through Superseedr, search the manual, and reach every global workspace."@,
        HelpSection::Torrents =>
            "Add, pause, sort, and remove transfers with deliberate keyboard control."@,
        HelpSection::Graphs =>
            "Tune live telemetry, time scale, refresh cadence, and presentation."@,
        HelpSection::Legends =>
            "Decode peer state, disk activity, DHT telemetry, and session progression."@,
        HelpSection::Screens =>
            "Use the context-aware commands available in each focused workspace."@,
        HelpSection::Paths =>
            "Inspect the resolved locations for this host and configuration mode."@,
        HelpSection::Build =>
            "See the discovery capabilities compiled into this exact executable."@,
    }
}

impl HelpSection {
    /// The sections in their order.
    pub fn all() -> (sections: Vec<HelpSection>)
        ensures
            sections@ == help_sections(),
    {
        let mut sections: Vec<HelpSection> = Vec::new();
        sections.push(HelpSection::General);
        sections.push(HelpSection::Torrents);
        sections.push(HelpSection::Graphs);
        sections.push(HelpSection::Legends);
        sections.push(HelpSection::Screens);
        sections.push(HelpSection::Paths);
        sections.push(HelpSection::Build);
        assert(sections@ =~= help_sections());
        sections
    }

    pub fn label(self) -> (label: &'static str)
        ensures
            label@ == section_name(self),
    {
        match self {
            HelpSection::General => "General",
            HelpSection::Torrents => "Torrents",
            HelpSection::Graphs => "Graphs",
            HelpSection::Legends => "Legends",
            HelpSection::Screens => "Screens",
            HelpSection::Paths => "Paths",
            HelpSection::Build => "Build",
        }
    }

    /// The next section, and after the last one the first.
    pub fn next(self) -> (section: HelpSection)
        ensures
            section == next_section(self),
    {
        match self {
            HelpSection::General => HelpSection::Torrents,
            HelpSection::Torrents => HelpSection::Graphs,
            HelpSection::Graphs => HelpSection::Legends,
            HelpSection::Legends => HelpSection::Screens,
            HelpSection::Screens => HelpSection::Paths,
            HelpSection::Paths => HelpSection::Build,
            HelpSection::Build => HelpSection::General,
        }
    }

    /// The section before, and before the first one the last.
    pub fn prev(self) -> (section: HelpSection)
        ensures
            section == previous_section(self),
    {
        match self {
            HelpSection::General => HelpSection::Build,
            HelpSection::Torrents => HelpSection::General,
            HelpSection::Graphs => HelpSection::Torrents,
            HelpSection::Legends => HelpSection::Graphs,
            HelpSection::Screens => HelpSection::Legends,
            HelpSection::Paths => HelpSection::Screens,
            HelpSection::Build => HelpSection::Paths,
        }
    }

    /// What the section is about.
    pub fn description(self) -> (text: &'static str)
        ensures
            text@ == section_words(self),
    {
        match self {
            HelpSection::General =>
                "Move through Superseedr, search the manual, and reach every global workspace.",
            HelpSection::Torrents =>
                "Add, pause, sort, and remove transfers with deliberate keyboard control.",
            HelpSection::Graphs =>
                "Tune live telemetry, time scale, refresh cadence, and presentation.",
            HelpSection::Legends =>
                "Decode peer state, disk activity, DHT telemetry, and session progression.",
            HelpSection::Screens =>
                "Use the context-aware commands available in each focused workspace.",
            HelpSection::Paths =>
                "Inspect the resolved locations for this host and configuration mode.",
            HelpSection::Build =>
                "See the discovery capabilities compiled into this exact executable.",
        }
    }
}

/// Stepping follows the order of the sections, round and round.
pub proof fn sections_go_round(k: int)
    requires
        0 <= k < help_sections().len(),
    ensures
        next_section(help_sections()[k]) == help_sections()[(k + 1) % 7],
        previous_section(help_sections()[(k + 1) % 7]) == help_sections()[k],
{
}

/// Every section says what it is about.
pub proof fn every_section_is_described(section: HelpSection)
    ensures
        section_words(section).len() > 0,
{
    reveal_strlit("Move through Superseedr, search the manual, and reach every global workspace.");
    reveal_strlit("Add, pause, sort, and remove transfers with deliberate keyboard control.");
    reveal_strlit("Tune live telemetry, time scale, refresh cadence, and presentation.");
    reveal_strlit("Decode peer state, disk activity, DHT telemetry, and session progression.");
    reveal_strlit("Use the context-aware commands available in each focused workspace.");
    reveal_strlit("Inspect the resolved locations for this host and configuration mode.");
    reveal_strlit("See the discovery capabilities compiled into this exact executable.");
}

// ------------------------------------------------------------------ the search

pub open spec fn help_search_panel(h: HelpScreenView) -> bool {
    h.is_searching || h.search_query.len() > 0
}

/// Whether the search is on view.
pub fn help_search_panel_active(app_state: &AppState) -> (active: bool)
    ensures
        active == help_search_panel(app_state.ui.help@),
{
    app_state.ui.help.is_searching || !app_state.ui.help.search_query.as_str().is_empty()
}

/// The text of an item that a search looks through.
pub open spec fn item_text(item: HelpItemView) -> Seq<char> {
    section_name(item.section) + " "@ + item.subsection + " "@ + item.key + " "@ + item.action
}

/// Whether a search finds an item.
pub open spec fn item_matches(item: HelpItemView, query: Seq<char>, mode: SearchMode) -> bool {
    query_matches(item_text(item), query, mode)
}

impl HelpItem {
    /// Whether a search finds the item.
    pub fn matches_query(&self, query: &str, mode: SearchMode) -> (found: bool)
        ensures
            found == item_matches(self@, query@, mode),
    {
        let mut haystack = join3(self.section.label(), " ", self.subsection.as_str());
        haystack.append(" ");
        haystack.append(self.key.as_str());
        haystack.append(" ");
        haystack.append(self.action.as_str());
        assert(haystack@ =~= item_text(self@));
        matches_query(haystack.as_str(), query, mode)
    }
}

/// Whether an item is on view: a search goes through all sections, and without one
/// the active section is shown.
pub open spec fn item_on_view(item: HelpItemView, h: HelpScreenView) -> bool {
    let query = trimmed(h.search_query);
    if h.is_searching || query.len() > 0 {
        item_matches(item, query, h.search_mode)
    } else {
        item.section == h.active_section
    }
}

/// The items on view.
pub open spec fn items_on_view(items: Seq<HelpItemView>, h: HelpScreenView) -> Seq<HelpItemView> {
    kept(items, |item: HelpItemView| item_on_view(item, h))
}

/// Keeps the items that are on view.
pub fn filter_help_items_for_view(all_items: Vec<HelpItem>, app_state: &AppState) -> (items: Vec<
    HelpItem,
>)
    ensures
        item_views(items@) == items_on_view(item_views(all_items@), app_state.ui.help@),
{
    let ghost h = app_state.ui.help@;
    let ghost test = |item: HelpItemView| item_on_view(item, h);
    let ghost views = item_views(all_items@);
    let query = trim(app_state.ui.help.search_query.as_str());
    let search_view = app_state.ui.help.is_searching || !query.as_str().is_empty();
    let mut all = all_items;
    let mut items: Vec<HelpItem> = Vec::new();
    let ghost mut done: int = 0;
    assert(views.skip(0) =~= views);
    assert(views.take(0) =~= Seq::<HelpItemView>::empty());
    assert(item_views(items@) =~= Seq::<HelpItemView>::empty());
    while all.len() > 0
        invariant
            0 <= done <= views.len(),
            item_views(all@) == views.skip(done),
            h == app_state.ui.help@,
            query@ == trimmed(h.search_query),
            search_view == (h.is_searching || query@.len() > 0),
            test == (|item: HelpItemView| item_on_view(item, h)),
            item_views(items@) == kept(views.take(done), test),
        decreases all@.len(),
    {
        let ghost was = all@;
        assert(item_views(was).len() == was.len());
        let item = all.remove(0);
        proof {
            assert(item_views(was)[0] == views.skip(done)[0]);
            assert(views[done] == item@);
            assert forall|k: int| 0 <= k < all@.len() implies item_views(all@)[k]
                == #[trigger] views.skip(done + 1)[k] by {
                assert(item_views(was)[k + 1] == views.skip(done)[k + 1]);
            }
            assert(item_views(all@) =~= views.skip(done + 1));
            assert(views.take(done + 1).drop_last() =~= views.take(done));
            assert(views.take(done + 1).last() == item@);
            done = done + 1;
        }
        let on_view = if search_view {
            item.matches_query(query.as_str(), app_state.ui.help.search_mode)
        } else {
            item.section == app_state.ui.help.active_section
        };
        if on_view {
            let ghost before = item_views(items@);
            let ghost view = item@;
            items.push(item);
            assert(item_views(items@) =~= before.push(view));
        }
    }
    assert(item_views(all@).len() == 0);
    assert(views.take(done) =~= views);
    items
}

/// All that the help screen says in a state.
pub open spec fn manual_of(facts: HelpFacts, app_state: AppState) -> Seq<HelpItemView> {
    manual(
        facts,
        text_view(app_state.cluster_role_label),
        text_view(app_state.cluster_runtime_label),
    )
}

/// The items on view.
pub fn help_items_for_view(facts: &HelpFacts, app_state: &AppState) -> (items: Vec<HelpItem>)
    ensures
        item_views(items@) == items_on_view(manual_of(*facts, *app_state), app_state.ui.help@),
{
    filter_help_items_for_view(build_help_items(facts, app_state), app_state)
}

// -------------------------------------------------------------------- the rows

/// A row of the table. An item is named by its position among those on view.
#[derive(Debug, PartialEq, Eq)]
pub enum HelpDisplayRow {
    Spacer,
    Heading { section: HelpSection, title: String },
    Item(usize),
}

#[verifier::ext_equal]
pub enum HelpRowView {
    Spacer,
    Heading(HelpSection, Seq<char>),
    Item(int),
}

impl View for HelpDisplayRow {
    type V = HelpRowView;

    open spec fn view(&self) -> HelpRowView {
        match *self {
            HelpDisplayRow::Spacer => HelpRowView::Spacer,
            HelpDisplayRow::Heading { section, title } => HelpRowView::Heading(section, title@),
            HelpDisplayRow::Item(position) => HelpRowView::Item(position as int),
        }
    }
}

pub open spec fn row_views(rows: Seq<HelpDisplayRow>) -> Seq<HelpRowView> {
    rows.map_values(|row: HelpDisplayRow| row@)
}

/// Whether two items stand under one heading. The section counts only where items
/// of several sections are shown.
pub open spec fn same_heading(a: HelpItemView, b: HelpItemView, search_view: bool) -> bool {
    a.subsection == b.subsection && (search_view ==> a.section == b.section)
}

/// The heading of an item.
pub open spec fn heading_of(item: HelpItemView, search_view: bool) -> HelpRowView {
    HelpRowView::Heading(
        item.section,
        if search_view {
            section_name(item.section) + " / "@ + item.subsection
        } else {
            item.subsection
        },
    )
}

/// The rows of the table: the items one after the other, with a heading wherever it
/// is not that of the item before, and a space above every heading but the first.
pub open spec fn display_rows(items: Seq<HelpItemView>, search_view: bool) -> Seq<HelpRowView>
    decreases items.len(),
{
    if items.len() == 0 {
        Seq::empty()
    } else {
        let before = display_rows(items.drop_last(), search_view);
        let last = items.last();
        let row = HelpRowView::Item(items.len() - 1);
        if items.len() == 1 {
            seq![heading_of(last, search_view), row]
        } else if same_heading(items[items.len() - 2], last, search_view) {
            before.push(row)
        } else {
            before.push(HelpRowView::Spacer).push(heading_of(last, search_view)).push(row)
        }
    }
}

fn push_row(rows: &mut Vec<HelpDisplayRow>, row: HelpDisplayRow)
    ensures
        row_views(final(rows)@) == row_views(old(rows)@).push(row@),
{
    let ghost was = row_views(rows@);
    let ghost view = row@;
    rows.push(row);
    assert(row_views(rows@) =~= was.push(view));
}

/// The rows of the table.
pub fn help_display_rows(items: &Vec<HelpItem>, search_view: bool) -> (rows: Vec<HelpDisplayRow>)
    ensures
        row_views(rows@) == display_rows(item_views(items@), search_view),
{
    let ghost views = item_views(items@);
    let mut rows: Vec<HelpDisplayRow> = Vec::new();
    let mut k: usize = 0;
    assert(views.take(0) =~= Seq::<HelpItemView>::empty());
    assert(row_views(rows@) =~= Seq::<HelpRowView>::empty());
    while k < items.len()
        invariant
            k <= items@.len(),
            views == item_views(items@),
            row_views(rows@) == display_rows(views.take(k as int), search_view),
        decreases items@.len() - k,
    {
        let item = &items[k];
        let ghost now = views.take(k + 1);
        assert(now.drop_last() =~= views.take(k as int));
        assert(now.last() == item@);
        let together = k > 0 && same_text(
            items[k - 1].subsection.as_str(),
            item.subsection.as_str(),
        ) && (!search_view || items[k - 1].section == item.section);
        assert(k > 0 ==> now[k - 1] == items@[k - 1]@);
        if !together {
            if k > 0 {
                push_row(&mut rows, HelpDisplayRow::Spacer);
            }
            let title = if search_view {
                join3(item.section.label(), " / ", item.subsection.as_str())
            } else {
                item.subsection.clone()
            };
            push_row(&mut rows, HelpDisplayRow::Heading { section: item.section, title });
        }
        push_row(&mut rows, HelpDisplayRow::Item(k));
        assert(row_views(rows@) =~= display_rows(now, search_view));
        k = k + 1;
    }
    assert(views.take(k as int) =~= views);
    rows
}

// -------------------------------------------------------------------- the keys

/// What a key can ask of the screen.
#[derive(Clone, Copy, Debug, PartialEq, Eq, Structural)]
pub enum HelpAction {
    Close,
    SectionNext,
    SectionPrev,
    ScrollUp,
    ScrollDown,
    SearchStart,
    SearchInsert(char),
    SearchBackspace,
    SearchClear,
    SearchCommit,
    SearchCancel,
    ToggleSearchMode,
}

/// What the screen asks of the program.
#[derive(Clone, Copy, Debug, PartialEq, Eq, Structural)]
pub enum HelpEffect {
    ToNormal,
}

pub struct HelpReduceResult {
    pub consumed: bool,
    pub effects: Vec<HelpEffect>,
}

impl Default for HelpReduceResult {
    fn default() -> (result: HelpReduceResult)
        ensures
            !result.consumed,
            result.effects@.len() == 0,
    {
        HelpReduceResult { consumed: false, effects: Vec::new() }
    }
}

/// What a key event means while the search is on view.
pub open spec fn help_search_key(key: KeyEvent) -> Option<HelpAction> {
    match key.code {
        KeyCode::Tab => Some(HelpAction::ToggleSearchMode),
        KeyCode::Esc => Some(HelpAction::SearchCancel),
        KeyCode::Enter => Some(HelpAction::SearchCommit),
        KeyCode::Backspace => Some(HelpAction::SearchBackspace),
        KeyCode::Up => Some(HelpAction::ScrollUp),
        KeyCode::Down => Some(HelpAction::ScrollDown),
        KeyCode::Char(c) => if c == 'u' && key.modifiers.control {
            Some(HelpAction::SearchClear)
        } else if !key.modifiers.control && !key.modifiers.alt {
            Some(HelpAction::SearchInsert(c))
        } else {
            None
        },
        _ => None,
    }
}

/// What a key means in the sections.
pub open spec fn help_section_key(key: KeyCode) -> Option<HelpAction> {
    match key {
        KeyCode::Esc | KeyCode::Char('m') | KeyCode::Char('q') => Some(HelpAction::Close),
        KeyCode::Tab | KeyCode::Right | KeyCode::Char('l') => Some(HelpAction::SectionNext),
        KeyCode::BackTab | KeyCode::Left | KeyCode::Char('h') => Some(HelpAction::SectionPrev),
        KeyCode::Up | KeyCode::Char('k') => Some(HelpAction::ScrollUp),
        KeyCode::Down | KeyCode::Char('j') => Some(HelpAction::ScrollDown),
        KeyCode::Char('/') => Some(HelpAction::SearchStart),
        _ => None,
    }
}

/// What a key event means. Letting go of a key means nothing.
pub open spec fn help_key(key: KeyEvent, search_panel_active: bool) -> Option<HelpAction> {
    if key.kind == KeyEventKind::Release {
        None
    } else if search_panel_active {
        help_search_key(key)
    } else {
        help_section_key(key.code)
    }
}

/// What a key event means.
pub fn map_key_to_help_action(key: KeyEvent, search_panel_active: bool) -> (action: Option<
    HelpAction,
>)
    ensures
        action == help_key(key, search_panel_active),
{
    if key.kind == KeyEventKind::Release {
        return None;
    }
    let has_ctrl = key.modifiers.control;
    let has_alt = key.modifiers.alt;
    if search_panel_active {
        return match key.code {
            KeyCode::Tab => Some(HelpAction::ToggleSearchMode),
            KeyCode::Esc => Some(HelpAction::SearchCancel),
            KeyCode::Enter => Some(HelpAction::SearchCommit),
            KeyCode::Backspace => Some(HelpAction::SearchBackspace),
            KeyCode::Up => Some(HelpAction::ScrollUp),
            KeyCode::Down => Some(HelpAction::ScrollDown),
            KeyCode::Char(c) => if c == 'u' && has_ctrl {
                Some(HelpAction::SearchClear)
            } else if !has_ctrl && !has_alt {
                Some(HelpAction::SearchInsert(c))
            } else {
                None
            },
            _ => None,
        };
    }
    match key.code {
        KeyCode::Esc | KeyCode::Char('m') | KeyCode::Char('q') => Some(HelpAction::Close),
        KeyCode::Tab | KeyCode::Right | KeyCode::Char('l') => Some(HelpAction::SectionNext),
        KeyCode::BackTab | KeyCode::Left | KeyCode::Char('h') => Some(HelpAction::SectionPrev),
        KeyCode::Up | KeyCode::Char('k') => Some(HelpAction::ScrollUp),
        KeyCode::Down | KeyCode::Char('j') => Some(HelpAction::ScrollDown),
        KeyCode::Char('/') => Some(HelpAction::SearchStart),
        _ => None,
    }
}

// ------------------------------------------------------------------ the layout

/// How much room the screen has.
#[derive(Clone, Copy, Debug, PartialEq, Eq, Structural)]
pub enum HelpDensity {
    Compact,
    Standard,
    Spacious,
}

/// Where the parts of the screen go.
#[derive(Clone, Copy, Debug, PartialEq, Eq, Structural)]
pub struct HelpLayout {
    pub popup: Rect,
    pub search: Option<Rect>,
    pub tabs: Rect,
    pub panel: Rect,
    pub hero: Rect,
    pub warning: Option<Rect>,
    pub table: Rect,
    pub controls: Rect,
    pub density: HelpDensity,
}

pub open spec fn density_of(width: int, height: int) -> HelpDensity {
    if width < 68 || height < 18 {
        HelpDensity::Compact
    } else if width >= 108 && height >= 30 {
        HelpDensity::Spacious
    } else {
        HelpDensity::Standard
    }
}

/// How much room a panel has.
pub fn help_density(panel: Rect) -> (density: HelpDensity)
    ensures
        density == density_of(panel.width as int, panel.height as int),
{
    if panel.width < 68 || panel.height < 18 {
        HelpDensity::Compact
    } else if panel.width >= 108 && panel.height >= 30 {
        HelpDensity::Spacious
    } else {
        HelpDensity::Standard
    }
}

/// What is inside the frame of a panel.
pub open spec fn panel_inside(panel: Rect, density: HelpDensity) -> Rect {
    framed(
        panel,
        1,
        if density == HelpDensity::Spacious {
            1
        } else {
            0
        },
    )
}

/// What is inside the frame of a panel.
pub fn help_panel_inner(panel: Rect, density: HelpDensity) -> (inner: Rect)
    requires
        panel.valid(),
    ensures
        inner == panel_inside(panel, density),
{
    let vertical_padding: u16 = if density == HelpDensity::Spacious {
        1
    } else {
        0
    };
    frame_inner(panel, 1, vertical_padding)
}

/// The rows of a warning: those that its text takes up and one more, but two or
/// three in all. Rows are counted in sixteen bits.
pub open spec fn warning_rows(length: int, width: int) -> int {
    let usable = max_int(monus(width, 2), 1);
    let lines = (length + usable - 1) / usable % 65536;
    if lines <= 1 {
        2
    } else {
        3
    }
}

/// The rows of a warning.
pub fn warning_height(warning_text: &str, width: u16) -> (height: u16)
    ensures
        height == warning_rows(warning_text@.len() as int, width as int),
{
    let spare: u16 = width.saturating_sub(2);
    let usable: usize = if spare >= 1 {
        spare as usize
    } else {
        1
    };
    let length: usize = warning_text.unicode_len();
    proof {
        rounding_up(length as int, usable as int);
    }
    let full: usize = length / usable;
    let lines: usize = if length % usable == 0 {
        full
    } else {
        full + 1
    };
    if lines % 65536 <= 1 {
        2
    } else {
        3
    }
}

proof fn rounding_up(length: int, usable: int)
    requires
        0 <= length,
        usable > 0,
    ensures
        (length + usable - 1) / usable == if length % usable == 0 {
            length / usable
        } else {
            length / usable + 1
        },
        length / usable <= length,
        length % usable != 0 ==> length / usable + 1 <= length,
{
    let q = length / usable;
    let r = length % usable;
    vstd::arithmetic::div_mod::lemma_fundamental_div_mod(length, usable);
    if r == 0 {
        vstd::arithmetic::div_mod::lemma_fundamental_div_mod_converse(
            length + usable - 1,
            usable,
            q,
            usable - 1,
        );
    } else {
        assert(usable * q + usable == (q + 1) * usable) by (nonlinear_arith);
        assert(usable * (q + 1) == (q + 1) * usable) by (nonlinear_arith);
        vstd::arithmetic::div_mod::lemma_fundamental_div_mod_converse(
            length + usable - 1,
            usable,
            q + 1,
            r - 1,
        );
    }
    assert(q <= usable * q) by (nonlinear_arith)
        requires
            usable > 0,
            q >= 0,
    ;
}

/// The height of what is below the search.
pub open spec fn sections_height(height: int, searching: bool) -> int {
    if searching && height >= 6 {
        height - 3
    } else {
        height
    }
}

/// The height of the framed panel: a line above it and one below stay free where
/// there is room.
pub open spec fn help_panel_height(height: int) -> int {
    if height >= 3 {
        height - 2
    } else {
        min_int(height, 1)
    }
}

/// The height of the heading of the table, and the least height of the table. In a
/// small panel a warning comes first.
pub open spec fn asked_heights(density: HelpDensity, inner: int, warning: Option<int>) -> (int, int) {
    match (density, warning) {
        (HelpDensity::Compact, Some(warning)) => {
            let hero = min_int(1, monus(monus(inner, warning), 1));
            (
                hero,
                if inner > warning + hero {
                    1
                } else {
                    0
                },
            )
        },
        (HelpDensity::Compact, None) => (1, 1),
        _ => (3, 1),
    }
}

/// The height of the table in a panel: what the heading and a warning leave.
pub open spec fn help_table_height(density: HelpDensity, inner: int, warning: Option<int>) -> int {
    let (hero, least) = asked_heights(density, inner, warning);
    let above = hero + match warning {
        Some(rows) => rows,
        None => 0,
    };
    if above + least <= inner {
        inner - above
    } else {
        min_int(least, inner)
    }
}

pub open spec fn warning_of(text: Option<Seq<char>>, width: int) -> Option<int> {
    match text {
        Some(text) => Some(warning_rows(text.len() as int, width)),
        None => None,
    }
}

fn place_rows(inner: Rect, hero_height: u16, warning_row: Option<u16>, table_min: u16) -> (rows: Vec<
    Rect,
>)
    requires
        inner.valid(),
        hero_height <= 3,
        warning_row matches Some(height) ==> height <= 3,
        table_min <= 1,
    ensures
        rows@.len() == if warning_row is Some {
            3int
        } else {
            2
        },
        forall|i: int|
            0 <= i < rows@.len() ==> (#[trigger] rows@[i]).x == inner.x && rows@[i].width
                == inner.width,
        rows@[0].y == inner.y,
        rows@[1].y == rows@[0].y + rows@[0].height,
        warning_row is Some ==> rows@[2].y == rows@[1].y + rows@[1].height,
        rows@.last().y + rows@.last().height == inner.y + inner.height,
        rows@[0].height <= hero_height,
        warning_row matches Some(height) ==> rows@[1].height <= height,
        ({
            let above = hero_height + match warning_row {
                Some(height) => height as int,
                None => 0,
            };
            if above + table_min <= inner.height {
                &&& rows@.last().height == inner.height - above
                &&& rows@[0].height == hero_height
                &&& warning_row matches Some(height) ==> rows@[1].height == height
            } else {
                rows@.last().height == min_int(table_min as int, inner.height as int)
            }
        }),
{
    let mut parts: Vec<Constraint> = Vec::new();
    parts.push(Constraint::Length(hero_height));
    if let Some(height) = warning_row {
        parts.push(Constraint::Length(height));
    }
    parts.push(Constraint::Min(table_min));
    proof {
        reveal_with_fuel(asked_by_all, 4);
        assert(one_minimum(parts@, parts@.len() - 1));
    }
    let rows = split_vertical(inner, &parts);
    proof {
        let spans = vertical_spans(rows@);
        assert(spans.len() == rows@.len());
        assert forall|i: int| 0 <= i < rows@.len() implies #[trigger] spans[i] == (
            rows@[i].y as int,
            rows@[i].height as int,
        ) by {}
        assert(spans[0].0 == inner.y);
        assert(spans[1].0 == spans[0].0 + spans[0].1);
        if warning_row is Some {
            assert(spans[2].0 == spans[1].0 + spans[1].1);
        }
    }
    rows
}

/// Where the parts of the screen go on the area that it takes up. Which of the lines
/// above and below the panel is there where there is room for one of them is not
/// stated.
pub fn calculate_help_layout(popup: Rect, search_panel_active: bool, warning_text: Option<&str>) -> (layout:
    HelpLayout)
    requires
        popup.valid(),
    ensures
        layout.popup == popup,
        layout.search is Some == (search_panel_active && popup.height >= 6),
        layout.search matches Some(search) ==> search == (Rect { height: 3, ..popup }),
        layout.tabs.x == popup.x,
        layout.tabs.width == popup.width,
        layout.tabs.y == popup.y + (popup.height - sections_height(
            popup.height as int,
            search_panel_active,
        )),
        layout.panel.x == popup.x,
        layout.panel.width == popup.width,
        layout.panel.y == layout.tabs.y + layout.tabs.height,
        layout.panel.height == help_panel_height(
            sections_height(popup.height as int, search_panel_active),
        ),
        layout.controls.x == popup.x,
        layout.controls.width == popup.width,
        layout.controls.y == layout.panel.y + layout.panel.height,
        layout.controls.y + layout.controls.height == popup.y + popup.height,
        layout.tabs.height <= 1,
        layout.controls.height <= 1,
        sections_height(popup.height as int, search_panel_active) >= 3 ==> layout.tabs.height == 1
            && layout.controls.height == 1,
        layout.density == density_of(layout.panel.width as int, layout.panel.height as int),
        ({
            let inner = panel_inside(layout.panel, layout.density);
            let warning = warning_of(
                match warning_text {
                    Some(text) => Some(text@),
                    None => None,
                },
                inner.width as int,
            );
            let (hero, least) = asked_heights(layout.density, inner.height as int, warning);
            &&& layout.hero.x == inner.x
            &&& layout.hero.width == inner.width
            &&& layout.hero.y == inner.y
            &&& layout.table.x == inner.x
            &&& layout.table.width == inner.width
            &&& layout.table.y + layout.table.height == inner.y + inner.height
            &&& layout.table.height == help_table_height(
                layout.density,
                inner.height as int,
                warning,
            )
            &&& layout.warning is Some == (warning_text is Some)
            &&& match layout.warning {
                Some(area) => {
                    &&& area.x == inner.x
                    &&& area.width == inner.width
                    &&& area.y == layout.hero.y + layout.hero.height
                    &&& layout.table.y == area.y + area.height
                    &&& layout.hero.height == hero
                    &&& area.height == min_int(warning->0, inner.height as int)
                },
                None => {
                    &&& layout.table.y == layout.hero.y + layout.hero.height
                    &&& hero + least <= inner.height ==> layout.hero.height == hero
                },
            }
        }),
{
    let (search, help_area) = if search_panel_active && popup.height >= 6 {
        let mut parts: Vec<Constraint> = Vec::new();
        parts.push(Constraint::Length(3));
        parts.push(Constraint::Min(1));
        proof {
            reveal_with_fuel(asked_by_all, 3);
            assert(one_minimum(parts@, 1));
        }
        let areas = split_vertical(popup, &parts);
        let ghost spans = vertical_spans(areas@);
        assert(spans.len() == 2);
        assert(spans[0] == (areas@[0].y as int, areas@[0].height as int));
        assert(spans[1] == (areas@[1].y as int, areas@[1].height as int));
        (Some(areas[0]), areas[1])
    } else {
        (None, popup)
    };
    let mut parts: Vec<Constraint> = Vec::new();
    parts.push(Constraint::Length(1));
    parts.push(Constraint::Min(1));
    parts.push(Constraint::Length(1));
    proof {
        reveal_with_fuel(asked_by_all, 4);
        assert(one_minimum(parts@, 1));
    }
    let chrome = split_vertical(help_area, &parts);
    let ghost spans = vertical_spans(chrome@);
    assert(spans.len() == 3);
    assert(spans[0] == (chrome@[0].y as int, chrome@[0].height as int));
    assert(spans[1] == (chrome@[1].y as int, chrome@[1].height as int));
    assert(spans[2] == (chrome@[2].y as int, chrome@[2].height as int));
    let panel = chrome[1];
    let density = help_density(panel);
    let inner = help_panel_inner(panel, density);
    let warning_row: Option<u16> = match warning_text {
        Some(text) => Some(warning_height(text, inner.width)),
        None => None,
    };
    let mut hero_height: u16 = if density == HelpDensity::Compact {
        1
    } else {
        3
    };
    let mut table_min: u16 = 1;
    if density == HelpDensity::Compact {
        if let Some(height) = warning_row {
            let room: u16 = inner.height.saturating_sub(height).saturating_sub(1);
            if room < hero_height {
                hero_height = room;
            }
            table_min = if inner.height > height + hero_height {
                1
            } else {
                0
            };
        }
    }
    let rows = place_rows(inner, hero_height, warning_row, table_min);
    let warning: Option<Rect> = if warning_row.is_some() {
        Some(rows[1])
    } else {
        None
    };
    HelpLayout {
        popup,
        search,
        tabs: chrome[0],
        panel,
        hero: rows[0],
        warning,
        table: rows[rows.len() - 1],
        controls: chrome[2],
        density,
    }
}

// --------------------------------------------------------------- the scrolling

/// The rows that a table shows, but at least one.
pub fn help_table_capacity(area: Rect) -> (rows: usize)
    ensures
        rows == max_int(area.height as int, 1),
{
    if area.height >= 1 {
        area.height as usize
    } else {
        1
    }
}

/// A position to scroll to, as far down as there are rows to show.
pub fn clamped_scroll_offset(scroll_offset: usize, len: usize, visible_count: usize) -> (offset: usize)
    ensures
        offset == min_int(scroll_offset as int, monus(len as int, visible_count as int)),
{
    if len <= visible_count {
        return 0;
    }
    if scroll_offset <= len - visible_count {
        scroll_offset
    } else {
        len - visible_count
    }
}

/// The height of the table in a state.
pub open spec fn table_height_in(area: Rect, searching: bool, warning: Option<Seq<char>>) -> int {
    let height = help_panel_height(sections_height(area.height as int, searching));
    let density = density_of(area.width as int, height);
    let padding = if density == HelpDensity::Spacious {
        4int
    } else {
        2
    };
    help_table_height(
        density,
        monus(height, padding),
        warning_of(warning, monus(area.width as int, 4)),
    )
}

/// The rows of the table on view in a state.
pub open spec fn visible_rows(app_state: AppState) -> int {
    if app_state.screen_area.width == 0 || app_state.screen_area.height == 0 {
        1
    } else {
        max_int(
            table_height_in(
                app_state.ui.help.area,
                help_search_panel(app_state.ui.help@),
                text_view(app_state.system_warning),
            ),
            1,
        )
    }
}

fn warning_in(app_state: &AppState) -> (warning: Option<&str>)
    ensures
        match warning {
            Some(text) => text_view(app_state.system_warning) == Some(text@),
            None => app_state.system_warning is None,
        },
{
    match &app_state.system_warning {
        Some(text) => Some(text.as_str()),
        None => None,
    }
}

/// The framed panel where there is room for a line above it and one below.
pub open spec fn help_panel(popup: Rect, searching: bool) -> Rect {
    let height = sections_height(popup.height as int, searching);
    Rect {
        y: (popup.y + popup.height - height + 1) as u16,
        height: help_panel_height(height) as u16,
        ..popup
    }
}

/// Where the table is in a state.
pub fn help_table_area_for_state(app_state: &AppState) -> (area: Rect)
    requires
        app_state.well_formed(),
    ensures
        max_int(area.height as int, 1) == visible_rows(*app_state),
        if app_state.screen_area.width == 0 || app_state.screen_area.height == 0 {
            area == (Rect { x: 0, y: 0, width: 1, height: 1 })
        } else {
            let popup = app_state.ui.help.area;
            &&& area.x == min_int(popup.x + min_int(1, popup.width as int) + 1, u16::MAX as int)
            &&& area.width == monus(popup.width as int, 4)
            &&& area.height == table_height_in(
                popup,
                help_search_panel(app_state.ui.help@),
                text_view(app_state.system_warning),
            )
            &&& sections_height(popup.height as int, help_search_panel(app_state.ui.help@)) >= 3
                ==> {
                let panel = help_panel(popup, help_search_panel(app_state.ui.help@));
                let inner = panel_inside(
                    panel,
                    density_of(panel.width as int, panel.height as int),
                );
                area.y + area.height == inner.y + inner.height
            }
        },
{
    if app_state.screen_area.width == 0 || app_state.screen_area.height == 0 {
        return Rect::new(0, 0, 1, 1);
    }
    calculate_help_layout(
        app_state.ui.help.area,
        help_search_panel_active(app_state),
        warning_in(app_state),
    ).table
}

/// The rows of the table on view in a state.
pub fn help_visible_count_for_state(app_state: &AppState) -> (rows: usize)
    requires
        app_state.well_formed(),
    ensures
        rows == visible_rows(*app_state),
{
    help_table_capacity(help_table_area_for_state(app_state))
}

/// How far the table can be scrolled.
pub open spec fn max_scroll(facts: HelpFacts, app_state: AppState) -> int {
    let items = items_on_view(manual_of(facts, app_state), app_state.ui.help@);
    let rows = display_rows(items, help_search_panel(app_state.ui.help@));
    monus(rows.len() as int, visible_rows(app_state))
}

/// How far the table can be scrolled.
pub fn max_help_scroll_offset(facts: &HelpFacts, app_state: &AppState) -> (offset: usize)
    requires
        app_state.well_formed(),
    ensures
        offset == max_scroll(*facts, *app_state),
{
    let items = help_items_for_view(facts, app_state);
    let rows = help_display_rows(&items, help_search_panel_active(app_state));
    assert(row_views(rows@).len() == rows@.len());
    clamped_scroll_offset(usize::MAX, rows.len(), help_visible_count_for_state(app_state))
}

// ----------------------------------------------------------------- the reducer

/// The state of the screen after an action, where the table can be scrolled so far.
pub open spec fn help_reduced(h: HelpScreenView, action: HelpAction, depth: int) -> HelpScreenView {
    let top = HelpScreenView { scroll_offset: 0, ..h };
    match action {
        HelpAction::Close => h,
        HelpAction::SectionNext => HelpScreenView {
            active_section: next_section(h.active_section),
            ..top
        },
        HelpAction::SectionPrev => HelpScreenView {
            active_section: previous_section(h.active_section),
            ..top
        },
        HelpAction::ScrollUp => HelpScreenView {
            scroll_offset: monus(min_int(h.scroll_offset, depth), 1),
            ..h
        },
        HelpAction::ScrollDown => HelpScreenView {
            scroll_offset: min_int(min_int(h.scroll_offset, depth) + 1, depth),
            ..h
        },
        HelpAction::SearchStart => HelpScreenView {
            is_searching: true,
            search_mode: SearchMode::Regex,
            ..top
        },
        HelpAction::SearchInsert(c) => HelpScreenView {
            search_query: h.search_query.push(c),
            ..top
        },
        HelpAction::SearchBackspace => HelpScreenView {
            search_query: without_last(h.search_query),
            ..top
        },
        HelpAction::SearchClear => HelpScreenView {
            is_searching: true,
            search_query: Seq::empty(),
            ..top
        },
        HelpAction::SearchCommit => HelpScreenView { is_searching: false, ..h },
        HelpAction::SearchCancel => HelpScreenView {
            is_searching: false,
            search_query: Seq::empty(),
            ..top
        },
        HelpAction::ToggleSearchMode => HelpScreenView {
            search_mode: other_mode(h.search_mode),
            ..top
        },
    }
}

pub open spec fn help_effects(action: HelpAction) -> Seq<HelpEffect> {
    if action == HelpAction::Close {
        seq![HelpEffect::ToNormal]
    } else {
        Seq::empty()
    }
}

impl AppState {
    /// The two states differ at most in what belongs to the help screen.
    pub open spec fn same_but_help(self, other: AppState) -> bool {
        other == (AppState { ui: UiState { help: other.ui.help, ..self.ui }, ..self })
    }
}

/// Moves the screen on by one action.
pub fn reduce_help_action(app_state: &mut AppState, facts: &HelpFacts, action: HelpAction) -> (result:
    HelpReduceResult)
    requires
        old(app_state).well_formed(),
    ensures
        result.consumed,
        result.effects@ == help_effects(action),
        final(app_state).ui.help@ == help_reduced(
            old(app_state).ui.help@,
            action,
            max_scroll(*facts, *old(app_state)),
        ),
        old(app_state).same_but_help(*final(app_state)),
        final(app_state).well_formed(),
{
    let mut effects: Vec<HelpEffect> = Vec::new();
    match action {
        HelpAction::Close => {
            effects.push(HelpEffect::ToNormal);
        },
        HelpAction::SectionNext => {
            app_state.ui.help.active_section = app_state.ui.help.active_section.next();
            app_state.ui.help.scroll_offset = 0;
        },
        HelpAction::SectionPrev => {
            app_state.ui.help.active_section = app_state.ui.help.active_section.prev();
            app_state.ui.help.scroll_offset = 0;
        },
        HelpAction::ScrollUp | HelpAction::ScrollDown => {
            let depth = max_help_scroll_offset(facts, app_state);
            let offset = app_state.ui.help.scroll_offset;
            let from: usize = if offset <= depth {
                offset
            } else {
                depth
            };
            app_state.ui.help.scroll_offset = if action == HelpAction::ScrollUp {
                from.saturating_sub(1)
            } else if from < depth {
                from + 1
            } else {
                depth
            };
        },
        HelpAction::SearchStart => {
            app_state.ui.help.is_searching = true;
            app_state.ui.help.search_mode = SearchMode::Regex;
            app_state.ui.help.scroll_offset = 0;
        },
        HelpAction::SearchInsert(c) => {
            app_state.ui.help.search_query.push(c);
            app_state.ui.help.scroll_offset = 0;
        },
        HelpAction::SearchBackspace => {
            let _ = app_state.ui.help.search_query.pop();
            app_state.ui.help.scroll_offset = 0;
        },
        HelpAction::SearchClear => {
            app_state.ui.help.is_searching = true;
            app_state.ui.help.search_query.clear();
            app_state.ui.help.scroll_offset = 0;
        },
        HelpAction::SearchCommit => {
            app_state.ui.help.is_searching = false;
        },
        HelpAction::SearchCancel => {
            app_state.ui.help.is_searching = false;
            app_state.ui.help.search_query.clear();
            app_state.ui.help.scroll_offset = 0;
        },
        HelpAction::ToggleSearchMode => {
            app_state.ui.help.search_mode = toggle_search_mode(app_state.ui.help.search_mode);
            app_state.ui.help.scroll_offset = 0;
        },
    }
    assert(effects@ =~= help_effects(action));
    HelpReduceResult { consumed: true, effects }
}

/// Carries out what the screen asks for.
pub fn execute_help_effects(app_state: &mut AppState, effects: &Vec<HelpEffect>)
    ensures
        *final(app_state) == (AppState {
            mode: if effects@.len() > 0 {
                AppMode::Normal
            } else {
                old(app_state).mode
            },
            ..*old(app_state)
        }),
{
    let mut k: usize = 0;
    while k < effects.len()
        invariant
            k <= effects@.len(),
            *app_state == (AppState {
                mode: if k > 0 {
                    AppMode::Normal
                } else {
                    old(app_state).mode
                },
                ..*old(app_state)
            }),
        decreases effects@.len() - k,
    {
        match effects[k] {
            HelpEffect::ToNormal => {
                app_state.mode = AppMode::Normal;
            },
        }
        k = k + 1;
    }
}

/// What an event means to the screen, if it is shown.
pub open spec fn help_acted_on(event: TerminalEvent, mode: AppMode, h: HelpScreenView) -> Option<
    HelpAction,
> {
    match event {
        TerminalEvent::Key(key) => if mode == AppMode::Help {
            help_key(key, help_search_panel(h))
        } else {
            None
        },
        TerminalEvent::Other => None,
    }
}

/// Handles one terminal event.
pub fn handle_event_with_settings(event: TerminalEvent, app_state: &mut AppState, facts: &HelpFacts)
    requires
        old(app_state).well_formed(),
    ensures
        match help_acted_on(event, old(app_state).mode, old(app_state).ui.help@) {
            Some(action) => {
                &&& final(app_state).ui.help@ == help_reduced(
                    old(app_state).ui.help@,
                    action,
                    max_scroll(*facts, *old(app_state)),
                )
                &&& *final(app_state) == (AppState {
                    mode: if action == HelpAction::Close {
                        AppMode::Normal
                    } else {
                        old(app_state).mode
                    },
                    ui: UiState {
                        needs_redraw: true,
                        help: final(app_state).ui.help,
                        ..old(app_state).ui
                    },
                    ..*old(app_state)
                })
            },
            None => *final(app_state) == *old(app_state),
        },
        final(app_state).well_formed(),
{
    if app_state.mode != AppMode::Help {
        return;
    }
    let key = match event {
        TerminalEvent::Key(key) => key,
        TerminalEvent::Other => {
            return;
        },
    };
    let search_panel_active = help_search_panel_active(app_state);
    if let Some(action) = map_key_to_help_action(key, search_panel_active) {
        let reduced = reduce_help_action(app_state, facts, action);
        if reduced.consumed {
            app_state.ui.needs_redraw = true;
            execute_help_effects(app_state, &reduced.effects);
        }
    }
}

// -------------------------------------------------------------------- the laws

/// The items that some rows show, by their positions.
pub open spec fn shown_items(rows: Seq<HelpRowView>) -> Seq<int>
    decreases rows.len(),
{
    if rows.len() == 0 {
        Seq::empty()
    } else {
        match rows.last() {
            HelpRowView::Item(k) => shown_items(rows.drop_last()).push(k),
            _ => shown_items(rows.drop_last()),
        }
    }
}

proof fn one_more_row(rows: Seq<HelpRowView>, row: HelpRowView)
    ensures
        shown_items(rows.push(row)) == match row {
            HelpRowView::Item(k) => shown_items(rows).push(k),
            _ => shown_items(rows),
        },
{
    assert(rows.push(row).drop_last() =~= rows);
}

/// The rows show every item once and in order, and begin with a heading.
pub proof fn rows_show_every_item(items: Seq<HelpItemView>, search_view: bool)
    ensures
        shown_items(display_rows(items, search_view)) == Seq::new(items.len(), |k: int| k),
        items.len() > 0 ==> display_rows(items, search_view).len() > 0
            && display_rows(items, search_view)[0] is Heading,
    decreases items.len(),
{
    let rows = display_rows(items, search_view);
    if items.len() == 0 {
        assert(shown_items(rows) =~= Seq::new(items.len(), |k: int| k));
    } else {
        let head = items.drop_last();
        rows_show_every_item(head, search_view);
        let before = display_rows(head, search_view);
        let row = HelpRowView::Item(items.len() - 1);
        let heading = heading_of(items.last(), search_view);
        if items.len() == 1 {
            let none = Seq::<HelpRowView>::empty();
            one_more_row(none, heading);
            one_more_row(none.push(heading), row);
            assert(rows =~= none.push(heading).push(row));
        } else if same_heading(items[items.len() - 2], items.last(), search_view) {
            one_more_row(before, row);
        } else {
            let spaced = before.push(HelpRowView::Spacer);
            one_more_row(before, HelpRowView::Spacer);
            one_more_row(spaced, heading);
            one_more_row(spaced.push(heading), row);
        }
        assert(shown_items(rows) =~= Seq::new(items.len(), |k: int| k));
    }
}

/// Whether something is said in a section.
pub open spec fn speaks_of(items: Seq<HelpItemView>, section: HelpSection) -> bool {
    exists|k: int| 0 <= k < items.len() && (#[trigger] items[k]).section == section
}

proof fn more_is_said(a: Seq<HelpItemView>, b: Seq<HelpItemView>, section: HelpSection)
    ensures
        speaks_of(a, section) ==> speaks_of(a + b, section),
        speaks_of(b, section) ==> speaks_of(a + b, section),
{
    if speaks_of(a, section) {
        let k = choose|k: int| 0 <= k < a.len() && (#[trigger] a[k]).section == section;
        assert((a + b)[k] == a[k]);
    }
    if speaks_of(b, section) {
        let k = choose|k: int| 0 <= k < b.len() && (#[trigger] b[k]).section == section;
        assert((a + b)[a.len() + k] == b[k]);
    }
}

proof fn every_part_speaks(
    facts: HelpFacts,
    role: Option<Seq<char>>,
    runtime: Option<Seq<char>>,
)
    ensures
        speaks_of(manual::general_items(), HelpSection::General),
        speaks_of(manual::torrents_items(), HelpSection::Torrents),
        speaks_of(manual::graphs_items(), HelpSection::Graphs),
        speaks_of(manual::legends_items(), HelpSection::Legends),
        speaks_of(manual::screens_items(), HelpSection::Screens),
        speaks_of(
            manual::footer_entries(facts, role, runtime).map_values(
                |entry: (Seq<char>, Seq<char>)| manual::path_item(entry),
            ),
            HelpSection::Paths,
        ),
        speaks_of(manual::build_items(facts), HelpSection::Build),
{
    assert(manual::general_items()[0].section == HelpSection::General);
    assert(manual::torrents_items()[0].section == HelpSection::Torrents);
    assert(manual::graphs_items()[0].section == HelpSection::Graphs);
    assert(manual::legends_items()[0].section == HelpSection::Legends);
    assert(manual::screens_items()[0].section == HelpSection::Screens);
    let paths = manual::footer_entries(facts, role, runtime).map_values(
        |entry: (Seq<char>, Seq<char>)| manual::path_item(entry),
    );
    assert(paths[0].section == HelpSection::Paths);
    assert(manual::build_items(facts)[0].section == HelpSection::Build);
}

proof fn the_whole_speaks(
    parts: (
        Seq<HelpItemView>,
        Seq<HelpItemView>,
        Seq<HelpItemView>,
        Seq<HelpItemView>,
        Seq<HelpItemView>,
    ),
    level: HelpItemView,
    rest: (Seq<HelpItemView>, Seq<HelpItemView>, Seq<HelpItemView>),
    section: HelpSection,
)
    requires
        speaks_of(parts.0, section) || speaks_of(parts.1, section) || speaks_of(parts.2, section)
            || speaks_of(parts.3, section) || speaks_of(parts.4, section) || speaks_of(
            rest.0,
            section,
        ) || speaks_of(rest.2, section),
    ensures
        speaks_of(
            (parts.0 + parts.1 + parts.2 + parts.3 + parts.4).push(level) + rest.0 + rest.1
                + rest.2,
            section,
        ),
{
    let (g, t, r, l, s) = parts;
    let (p, m, b) = rest;
    more_is_said(g, t, section);
    more_is_said(g + t, r, section);
    more_is_said(g + t + r, l, section);
    more_is_said(g + t + r + l, s, section);
    let fixed = g + t + r + l + s;
    more_is_said(fixed, seq![level], section);
    assert(fixed + seq![level] =~= fixed.push(level));
    more_is_said(fixed.push(level), p, section);
    more_is_said(fixed.push(level) + p, m, section);
    more_is_said(fixed.push(level) + p + m, b, section);
}

/// Without a search no section is empty.
pub proof fn no_section_is_empty(
    facts: HelpFacts,
    role: Option<Seq<char>>,
    runtime: Option<Seq<char>>,
    h: HelpScreenView,
)
    requires
        !h.is_searching,
        trimmed(h.search_query).len() == 0,
    ensures
        items_on_view(manual(facts, role, runtime), h).len() > 0,
{
    let all = manual(facts, role, runtime);
    let test = |item: HelpItemView| item_on_view(item, h);
    let section = h.active_section;
    every_part_speaks(facts, role, runtime);
    the_whole_speaks(
        (
            manual::general_items(),
            manual::torrents_items(),
            manual::graphs_items(),
            manual::legends_items(),
            manual::screens_items(),
        ),
        manual::level_item(facts),
        (
            manual::footer_entries(facts, role, runtime).map_values(
                |entry: (Seq<char>, Seq<char>)| manual::path_item(entry),
            ),
            manual::shared_items(facts),
            manual::build_items(facts),
        ),
        section,
    );
    let k = choose|k: int| 0 <= k < all.len() && (#[trigger] all[k]).section == section;
    let item = all[k];
    crate::lists::kept_contains(all, test);
    assert(kept(all, test).contains(item) <==> all.contains(item) && test(item));
}

/// Scrolling never leaves the table, and what changes the items on view goes back
/// to the top.
pub proof fn scrolling_stays_within_the_table(h: HelpScreenView, action: HelpAction, depth: int)
    requires
        0 <= h.scroll_offset <= depth,
    ensures
        ({
            let after = help_reduced(h, action, depth);
            &&& 0 <= after.scroll_offset <= depth
            &&& after.active_section != h.active_section || after.search_query != h.search_query
                || after.search_mode != h.search_mode ==> after.scroll_offset == 0
        }),
{
}

/// The first `Esc` clears a search, and only the next one closes the screen.
pub proof fn escape_clears_the_search_first(h: HelpScreenView, key: KeyEvent, depth: int)
    requires
        help_search_panel(h),
        key.code == KeyCode::Esc,
        key.kind != KeyEventKind::Release,
    ensures
        help_key(key, help_search_panel(h)) == Some(HelpAction::SearchCancel),
        !help_search_panel(help_reduced(h, HelpAction::SearchCancel, depth)),
        help_key(
            key,
            help_search_panel(help_reduced(h, HelpAction::SearchCancel, depth)),
        ) == Some(HelpAction::Close),
{
}

} // verus!
