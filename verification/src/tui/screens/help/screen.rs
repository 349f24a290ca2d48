//! What the help screen shows.
use crate::app::{AppState, HelpScreenView, HelpSection};
use crate::geometry::monus;
use crate::search::SearchMode;
use crate::text::{
    cut_off, decimal, format_number, join, join3, to_upper_case, truncate_with_ellipsis, upper_case,
};
use crate::tui::action_style::{hint, hint_views, push_hint, ActionTone, HintView, KeyHint};
use crate::tui::screens::help::manual::{HelpItem, HelpItemView, HelpKeyStyle};
use crate::tui::screens::help::{
    help_search_panel, help_search_panel_active, help_sections, section_name, section_words,
};
use vstd::prelude::*;
use vstd::string::StrSliceExecFns;

verus! {

// -------------------------------------------------------------------- the tabs

/// The columns that the names of some sections take up.
pub open spec fn names_width(sections: Seq<HelpSection>) -> int
    decreases sections.len(),
{
    if sections.len() == 0 {
        0
    } else {
        names_width(sections.drop_last()) + section_name(sections.last()).len()
    }
}

proof fn the_names_take_45_columns()
    ensures
        names_width(help_sections()) == 45,
{
    let all = help_sections();
    reveal_with_fuel(names_width, 8);
    reveal_strlit("General");
    reveal_strlit("Torrents");
    reveal_strlit("Graphs");
    reveal_strlit("Legends");
    reveal_strlit("Screens");
    reveal_strlit("Paths");
    reveal_strlit("Build");
    assert(all.drop_last() =~= all.take(6));
    assert(all.take(6).drop_last() =~= all.take(5));
    assert(all.take(5).drop_last() =~= all.take(4));
    assert(all.take(4).drop_last() =~= all.take(3));
    assert(all.take(3).drop_last() =~= all.take(2));
    assert(all.take(2).drop_last() =~= all.take(1));
    assert(all.take(1).drop_last() =~= all.take(0));
}

/// The columns that all tabs take up side by side, with gaps between them.
pub open spec fn tabs_width(gap_width: int) -> int {
    names_width(help_sections()) + gap_width * (help_sections().len() - 1)
}

/// The columns that all tabs take up side by side, with gaps between them.
pub fn help_tabs_width(gap_width: u16) -> (width: u16)
    requires
        tabs_width(gap_width as int) <= u16::MAX,
    ensures
        width == tabs_width(gap_width as int),
{
    proof {
        the_names_take_45_columns();
    }
    let all = HelpSection::all();
    let mut names: u16 = 0;
    let mut k: usize = 0;
    assert(all@.take(0) =~= Seq::<HelpSection>::empty());
    while k < all.len()
        invariant
            k <= all@.len(),
            all@ == help_sections(),
            names == names_width(all@.take(k as int)),
            names <= 1000 * k,
            all@.len() == 7,
        decreases all@.len() - k,
    {
        assert(all@.take(k + 1).drop_last() =~= all@.take(k as int));
        proof {
            reveal_strlit("General");
            reveal_strlit("Torrents");
            reveal_strlit("Graphs");
            reveal_strlit("Legends");
            reveal_strlit("Screens");
            reveal_strlit("Paths");
            reveal_strlit("Build");
        }
        names = names + all[k].label().unicode_len() as u16;
        k = k + 1;
    }
    assert(all@.take(k as int) =~= all@);
    names + gap_width * 6
}

/// How the sections are told apart above the panel.
#[derive(Clone, Copy, Debug, PartialEq, Eq, Structural)]
pub enum HelpTabs {
    /// All of them, with so many columns between two.
    All(u16),
    /// The active one between its neighbours.
    Neighbours,
    /// The active one alone.
    Active,
}

/// How the sections are told apart in an area of the given width.
pub fn help_tabs(width: u16) -> (tabs: HelpTabs)
    ensures
        tabs == if width >= tabs_width(3) {
            HelpTabs::All(3)
        } else if width >= tabs_width(1) {
            HelpTabs::All(1)
        } else if width >= 32 {
            HelpTabs::Neighbours
        } else {
            HelpTabs::Active
        },
{
    proof {
        the_names_take_45_columns();
    }
    if width >= help_tabs_width(3) {
        HelpTabs::All(3)
    } else if width >= help_tabs_width(1) {
        HelpTabs::All(1)
    } else if width >= 32 {
        HelpTabs::Neighbours
    } else {
        HelpTabs::Active
    }
}

// ----------------------------------------------------------------- the heading

/// The title above the table.
pub fn hero_title(section: HelpSection, search_view: bool) -> (title: &'static str)
    ensures
        title@ == if search_view {
            "Search results"@
        } else {
            section_name(section)
        },
{
    if search_view {
        "Search results"
    } else {
        section.label()
    }
}

/// How many items are on view.
pub fn hero_count_label(visible_count: usize, search_view: bool) -> (label: String)
    ensures
        label@ == decimal(visible_count as nat) + if search_view {
            " matches"@
        } else {
            " entries"@
        },
{
    let unit = if search_view {
        " matches"
    } else {
        " entries"
    };
    join(format_number(visible_count as u64).as_str(), unit)
}

/// What is on view, in words.
pub open spec fn hero_words(h: HelpScreenView) -> Seq<char> {
    if help_search_panel(h) {
        match h.search_mode {
            SearchMode::Fuzzy =>
                "Fuzzy matching across every help section; Tab changes mode and Esc clears."@,
            SearchMode::Regex =>
                "Regex matching across every help section; Tab changes mode and Esc clears."@,
        }
    } else {
        section_words(h.active_section)
    }
}

/// What is on view, in words, cut to a width.
pub fn hero_description(app_state: &AppState, width: u16) -> (text: String)
    ensures
        text@ == cut_off(hero_words(app_state.ui.help@), width as int),
{
    let words = if help_search_panel_active(app_state) {
        match app_state.ui.help.search_mode {
            SearchMode::Fuzzy =>
                "Fuzzy matching across every help section; Tab changes mode and Esc clears.",
            SearchMode::Regex =>
                "Regex matching across every help section; Tab changes mode and Esc clears.",
        }
    } else {
        app_state.ui.help.active_section.description()
    };
    truncate_with_ellipsis(words, width as usize)
}

// ------------------------------------------------------------------- the table

/// The widths of the columns of the table: that of the keys, the gap, and what is
/// left for the words.
#[derive(Clone, Copy, Debug, PartialEq, Eq, Structural)]
pub struct HelpColumns {
    pub key_width: u16,
    pub column_spacing: u16,
    pub action_width: u16,
}

pub open spec fn key_column(width: int) -> int {
    if width >= 58 {
        28
    } else if width >= 42 {
        22
    } else if width / 2 < 12 {
        12
    } else if width / 2 > 20 {
        20
    } else {
        width / 2
    }
}

/// The widths of the columns of a table of the given width.
pub fn help_columns(width: u16) -> (columns: HelpColumns)
    ensures
        columns.key_width == key_column(width as int),
        columns.column_spacing == if width >= 48 {
            1int
        } else {
            0
        },
        columns.action_width == monus(
            monus(monus(width as int, key_column(width as int)), columns.column_spacing as int),
            2,
        ),
{
    let key_width: u16 = if width >= 58 {
        28
    } else if width >= 42 {
        22
    } else if width / 2 < 12 {
        12
    } else if width / 2 > 20 {
        20
    } else {
        width / 2
    };
    let column_spacing: u16 = if width >= 48 {
        1
    } else {
        0
    };
    let action_width: u16 = width.saturating_sub(key_width).saturating_sub(
        column_spacing,
    ).saturating_sub(2);
    HelpColumns { key_width, column_spacing, action_width }
}

/// The mark in front of a key, if there is one.
pub open spec fn mark_of(style: HelpKeyStyle) -> Option<Seq<char>> {
    match style {
        HelpKeyStyle::Plain => None,
        HelpKeyStyle::PeerDownloadOpportunity | HelpKeyStyle::PeerDownloadBlocked
        | HelpKeyStyle::PeerUploadOpportunity
        | HelpKeyStyle::PeerUploadRestricted => Some("■"@),
        HelpKeyStyle::DiskRead => Some("↑"@),
        HelpKeyStyle::DiskWrite => Some("↓"@),
    }
}

/// The cell of a key: in brackets and cut to its column, or behind its mark.
pub open spec fn key_text(item: HelpItemView, key_width: int) -> Seq<char> {
    match mark_of(item.key_style) {
        Some(mark) => mark + " "@ + item.key,
        None => cut_off("["@ + item.key + "]"@, key_width),
    }
}

/// The cell of a key.
pub fn help_item_key_cell(item: &HelpItem, key_width: u16) -> (cell: String)
    ensures
        cell@ == key_text(item@, key_width as int),
{
    match item.key_style {
        HelpKeyStyle::Plain => {
            let key = join3("[", item.key.as_str(), "]");
            truncate_with_ellipsis(key.as_str(), key_width as usize)
        },
        HelpKeyStyle::DiskRead => join3("↑", " ", item.key.as_str()),
        HelpKeyStyle::DiskWrite => join3("↓", " ", item.key.as_str()),
        _ => join3("■", " ", item.key.as_str()),
    }
}

/// The cell of the words of an item, indented and cut to its column.
pub fn help_item_action_cell(item: &HelpItem, action_width: u16) -> (cell: String)
    ensures
        cell@ == "  "@ + cut_off(item@.action, action_width as int),
{
    let action = truncate_with_ellipsis(item.action.as_str(), action_width as usize);
    join("  ", action.as_str())
}

/// The cell of a heading, in capital letters and cut to its column.
pub fn help_heading_cell(title: &str, key_width: u16) -> (cell: String)
    ensures
        cell@ == cut_off("◆ "@ + upper_case(title@), key_width as int),
{
    let upper = to_upper_case(title);
    let heading = join("◆ ", upper.as_str());
    truncate_with_ellipsis(heading.as_str(), key_width as usize)
}

/// What stands in an empty table.
pub fn empty_help_message(app_state: &AppState) -> (message: &'static str)
    ensures
        message@ == if app_state.ui.help@.search_query.len() == 0 {
            "No help entries in this view"@
        } else {
            "No help entries match the search"@
        },
{
    if app_state.ui.help.search_query.as_str().is_empty() {
        "No help entries in this view"
    } else {
        "No help entries match the search"
    }
}

// ---------------------------------------------------------------- the controls

/// The keys below the panel: fewer, and without words, the narrower it is.
pub open spec fn control_keys(searching: bool, width: int) -> Seq<HintView> {
    let tight = width < 48;
    let compact = width < 68;
    if searching && tight {
        seq![
            hint("Tab"@, ""@, ActionTone::Mode),
            hint("Enter"@, ""@, ActionTone::Confirm),
            hint("Esc"@, ""@, ActionTone::Cancel),
        ]
    } else if searching && compact {
        seq![
            hint("Tab"@, "mode"@, ActionTone::Mode),
            hint("Enter"@, "keep"@, ActionTone::Confirm),
            hint("Esc"@, "clear"@, ActionTone::Cancel),
        ]
    } else if searching {
        seq![
            hint("type"@, "query"@, ActionTone::Edit),
            hint("Tab"@, "mode"@, ActionTone::Mode),
            hint("Enter"@, "keep"@, ActionTone::Confirm),
            hint("Esc"@, "clear"@, ActionTone::Cancel),
            hint("↑/↓"@, "scroll"@, ActionTone::Navigate),
        ]
    } else if tight {
        seq![
            hint("Esc"@, ""@, ActionTone::Cancel),
            hint("Tab"@, ""@, ActionTone::Mode),
            hint("/"@, ""@, ActionTone::Search),
        ]
    } else if compact {
        seq![
            hint("Esc"@, "close"@, ActionTone::Cancel),
            hint("Tab"@, "section"@, ActionTone::Mode),
            hint("/"@, "search"@, ActionTone::Search),
        ]
    } else {
        seq![
            hint("Esc/m/q"@, "close"@, ActionTone::Cancel),
            hint("Tab"@, "section"@, ActionTone::Mode),
            hint("/"@, "search"@, ActionTone::Search),
            hint("↑/↓"@, "scroll"@, ActionTone::Navigate),
        ]
    }
}

/// The keys below the panel.
pub fn help_controls(app_state: &AppState, width: u16) -> (hints: Vec<KeyHint>)
    ensures
        hint_views(hints@) == control_keys(help_search_panel(app_state.ui.help@), width as int),
{
    let searching = help_search_panel_active(app_state);
    let tight = width < 48;
    let compact = width < 68;
    let mut hints: Vec<KeyHint> = Vec::new();
    assert(hint_views(hints@) =~= Seq::<HintView>::empty());
    if searching && tight {
        push_hint(&mut hints, "Tab", "", ActionTone::Mode);
        push_hint(&mut hints, "Enter", "", ActionTone::Confirm);
        push_hint(&mut hints, "Esc", "", ActionTone::Cancel);
    } else if searching && compact {
        push_hint(&mut hints, "Tab", "mode", ActionTone::Mode);
        push_hint(&mut hints, "Enter", "keep", ActionTone::Confirm);
        push_hint(&mut hints, "Esc", "clear", ActionTone::Cancel);
    } else if searching {
        push_hint(&mut hints, "type", "query", ActionTone::Edit);
        push_hint(&mut hints, "Tab", "mode", ActionTone::Mode);
        push_hint(&mut hints, "Enter", "keep", ActionTone::Confirm);
        push_hint(&mut hints, "Esc", "clear", ActionTone::Cancel);
        push_hint(&mut hints, "↑/↓", "scroll", ActionTone::Navigate);
    } else if tight {
        push_hint(&mut hints, "Esc", "", ActionTone::Cancel);
        push_hint(&mut hints, "Tab", "", ActionTone::Mode);
        push_hint(&mut hints, "/", "", ActionTone::Search);
    } else if compact {
        push_hint(&mut hints, "Esc", "close", ActionTone::Cancel);
        push_hint(&mut hints, "Tab", "section", ActionTone::Mode);
        push_hint(&mut hints, "/", "search", ActionTone::Search);
    } else {
        push_hint(&mut hints, "Esc/m/q", "close", ActionTone::Cancel);
        push_hint(&mut hints, "Tab", "section", ActionTone::Mode);
        push_hint(&mut hints, "/", "search", ActionTone::Search);
        push_hint(&mut hints, "↑/↓", "scroll", ActionTone::Navigate);
    }
    assert(hint_views(hints@) =~= control_keys(searching, width as int));
    hints
}

} // verus!
