//! What the keys of the help screen do, and what is on view.
use crate::app::{AppMode, HelpScreenView, HelpSection};
use crate::keys::{press, KeyCode, KeyEvent, KeyEventKind, KeyModifiers, TerminalEvent};
use crate::lists::kept_contains;
use crate::search::{fuzzy_finds, regex_finds, SearchMode};
use crate::text::{lower_case, trimmed};
use crate::tui::screens::help::manual::HelpItemView;
use crate::tui::screens::help::{
    help_acted_on, help_effects, help_reduced, item_on_view, items_on_view, section_name,
};
use vstd::prelude::*;

verus! {

// -------------------------------------------------------------- what is on view

/// Whether a search finds an item: it looks through the section, the part of it, the
/// key and what the key does. A fuzzy search goes by small letters.
pub open spec fn is_found(item: HelpItemView, query: Seq<char>, mode: SearchMode) -> bool {
    let text = section_name(item.section) + " "@ + item.subsection + " "@ + item.key + " "@
        + item.action;
    match mode {
        SearchMode::Fuzzy => fuzzy_finds(lower_case(text), lower_case(query)),
        SearchMode::Regex => regex_finds(query, text),
    }
}

/// With a query an item is on view if and only if the query finds it, whatever its
/// section is and whether or not the query is still being typed.
pub proof fn a_query_shows_what_it_finds(
    items: Seq<HelpItemView>,
    h: HelpScreenView,
    item: HelpItemView,
)
    requires
        trimmed(h.search_query).len() > 0,
    ensures
        items_on_view(items, h).contains(item) <==> items.contains(item) && is_found(
            item,
            trimmed(h.search_query),
            h.search_mode,
        ),
{
    kept_contains(items, |item: HelpItemView| item_on_view(item, h));
}

/// Without a query an item is on view if and only if it is of the active section; while
/// one is about to be typed every item is.
pub proof fn no_query_shows_the_section(
    items: Seq<HelpItemView>,
    h: HelpScreenView,
    item: HelpItemView,
)
    requires
        trimmed(h.search_query).len() == 0,
    ensures
        items_on_view(items, h).contains(item) <==> items.contains(item) && (h.is_searching
            || item.section == h.active_section),
{
    kept_contains(items, |item: HelpItemView| item_on_view(item, h));
}

// ----------------------------------------------------------------- what keys do

/// The screen after a key, where the table can be scrolled so far.
pub open spec fn after(h: HelpScreenView, code: KeyCode, depth: int) -> HelpScreenView {
    match help_acted_on(press(code), AppMode::Help, h) {
        Some(action) => help_reduced(h, action, depth),
        None => h,
    }
}

/// Whether a key leaves the screen.
pub open spec fn leaves(h: HelpScreenView, code: KeyCode) -> bool {
    match help_acted_on(press(code), AppMode::Help, h) {
        Some(action) => help_effects(action).len() > 0,
        None => false,
    }
}

/// Whether a search is typed or set.
pub open spec fn searches(h: HelpScreenView) -> bool {
    h.is_searching || h.search_query.len() > 0
}

/// Keeping a query leaves the items on view as they are.
pub proof fn keeping_a_query_changes_no_item(
    items: Seq<HelpItemView>,
    h: HelpScreenView,
    depth: int,
)
    requires
        trimmed(h.search_query).len() > 0,
    ensures
        !after(h, KeyCode::Enter, depth).is_searching,
        after(h, KeyCode::Enter, depth).search_query == h.search_query,
        items_on_view(items, after(h, KeyCode::Enter, depth)) == items_on_view(items, h),
{
    let kept_search = after(h, KeyCode::Enter, depth);
    assert((|item: HelpItemView| item_on_view(item, h)) =~= (|item: HelpItemView|
        item_on_view(item, kept_search)));
}

/// A slash opens the search. A letter is put behind the query and Backspace takes the
/// last one off; Tab reads the query in the other way; Esc drops it and Enter keeps it.
pub proof fn a_query_is_typed_letter_by_letter(h: HelpScreenView, c: char, depth: int)
    ensures
        !searches(h) ==> {
            &&& after(h, KeyCode::Char('/'), depth).is_searching
            &&& after(h, KeyCode::Char('/'), depth).search_query == h.search_query
        },
        searches(h) ==> {
            &&& after(h, KeyCode::Char(c), depth).search_query == h.search_query.push(c)
            &&& h.search_query.len() > 0 ==> after(h, KeyCode::Backspace, depth).search_query
                == h.search_query.subrange(0, h.search_query.len() - 1)
            &&& after(h, KeyCode::Tab, depth).search_mode != h.search_mode
            &&& after(h, KeyCode::Tab, depth).search_query == h.search_query
            &&& !searches(after(h, KeyCode::Esc, depth))
            &&& !leaves(h, KeyCode::Esc)
            &&& after(h, KeyCode::Enter, depth).search_query == h.search_query
            &&& !after(h, KeyCode::Enter, depth).is_searching
        },
        after(h, KeyCode::Char('/'), depth).active_section == h.active_section,
        searches(h) ==> after(h, KeyCode::Char(c), depth).active_section == h.active_section,
{
    if h.search_query.len() > 0 {
        assert(h.search_query.drop_last() =~= h.search_query.subrange(
            0,
            h.search_query.len() - 1,
        ));
    }
}

/// Control and u empties the query and goes on searching.
pub proof fn control_and_u_empties_the_query(h: HelpScreenView, depth: int)
    requires
        searches(h),
    ensures
        ({
            let event = TerminalEvent::Key(
                KeyEvent {
                    code: KeyCode::Char('u'),
                    modifiers: KeyModifiers {
                        shift: false,
                        control: true,
                        alt: false,
                        other: false,
                    },
                    kind: KeyEventKind::Press,
                },
            );
            let action = help_acted_on(event, AppMode::Help, h);
            &&& action is Some
            &&& help_reduced(h, action->0, depth).is_searching
            &&& help_reduced(h, action->0, depth).search_query.len() == 0
        }),
{
}

/// The place of a section among the tabs.
pub open spec fn tab_of(section: HelpSection) -> int {
    match section {
        HelpSection::General => 0,
        HelpSection::Torrents => 1,
        HelpSection::Graphs => 2,
        HelpSection::Legends => 3,
        HelpSection::Screens => 4,
        HelpSection::Paths => 5,
        HelpSection::Build => 6,
    }
}

/// Without a search Tab, Right and l go one tab to the right, BackTab, Left and h one to
/// the left, and round at the ends; each starts at the top of its section.
pub proof fn keys_go_from_tab_to_tab(h: HelpScreenView, depth: int)
    requires
        !searches(h),
    ensures
        forall|code: KeyCode|
            code == KeyCode::Tab || code == KeyCode::Right || code == KeyCode::Char('l') ==> {
                let next = #[trigger] after(h, code, depth);
                tab_of(next.active_section) == (tab_of(h.active_section) + 1) % 7
                    && next.scroll_offset == 0
            },
        forall|code: KeyCode|
            code == KeyCode::BackTab || code == KeyCode::Left || code == KeyCode::Char('h') ==> {
                let next = #[trigger] after(h, code, depth);
                tab_of(next.active_section) == (tab_of(h.active_section) + 6) % 7
                    && next.scroll_offset == 0
            },
{
}

/// Down goes one row down and Up one row up, as far as the table can be scrolled.
pub proof fn keys_scroll_row_by_row(h: HelpScreenView, depth: int)
    requires
        0 <= h.scroll_offset <= depth,
    ensures
        after(h, KeyCode::Down, depth).scroll_offset == if h.scroll_offset < depth {
            h.scroll_offset + 1
        } else {
            depth
        },
        after(h, KeyCode::Up, depth).scroll_offset == if h.scroll_offset > 0 {
            h.scroll_offset - 1
        } else {
            0
        },
        after(h, KeyCode::Down, depth).active_section == h.active_section,
        after(h, KeyCode::Down, depth).search_query == h.search_query,
        after(h, KeyCode::Up, depth).active_section == h.active_section,
        after(h, KeyCode::Up, depth).search_query == h.search_query,
{
}

/// Without a search Esc, m and q leave the screen, and no other key does; with one no key
/// does.
pub proof fn three_keys_leave(h: HelpScreenView, code: KeyCode)
    ensures
        leaves(h, code) <==> !searches(h) && (code == KeyCode::Esc || code == KeyCode::Char('m')
            || code == KeyCode::Char('q')),
{
}

/// Letting go of a key does nothing.
pub proof fn letting_go_does_nothing(h: HelpScreenView, key: KeyEvent, mode: AppMode)
    requires
        key.kind == KeyEventKind::Release || mode != AppMode::Help,
    ensures
        help_acted_on(TerminalEvent::Key(key), mode, h) is None,
{
}

} // verus!
