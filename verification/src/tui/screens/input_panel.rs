//! The panel in which a search is typed.
use crate::app::{AppState, PeerScreenView};
use crate::search::SearchMode;
use crate::text::{decimal, format_number, join3};
use crate::tui::screens::peers::details::peer_details_overlay_active;
use vstd::prelude::*;
use vstd::string::StringExecFns;

verus! {

/// The line in which something is typed: a mark, what was typed so far, and where
/// the next character goes.
pub fn prompt_line(value: &str, show_cursor: bool) -> (line: String)
    ensures
        line@ == "> "@ + value@ + if show_cursor {
            "_"@
        } else {
            ""@
        },
{
    join3(
        "> ",
        value,
        if show_cursor {
            "_"
        } else {
            ""
        },
    )
}

/// How many things a search finds, behind the line.
pub fn match_count_label(visible_count: usize) -> (label: String)
    ensures
        label@ == "  "@ + decimal(visible_count as nat) + " matches"@,
{
    join3("  ", format_number(visible_count as u64).as_str(), " matches")
}

/// A search that is on view: its title, what is searched for, and how it is read.
pub struct SearchPrompt {
    pub title: &'static str,
    pub query: String,
    pub mode: SearchMode,
}

/// Whether a prompt is that of the search in the details of a peer, while they are
/// shown, and else that in the table.
pub open spec fn is_peer_prompt(prompt: SearchPrompt, pm: PeerScreenView) -> bool {
    if pm.show_details {
        &&& prompt.title@ == " Torrent Search "@
        &&& prompt.query@ == pm.details_search_query
        &&& prompt.mode == pm.details_search_mode
    } else {
        &&& prompt.title@ == " Peer Search "@
        &&& prompt.query@ == pm.search_query
        &&& prompt.mode == pm.search_mode
    }
}

/// The search of peer management.
pub fn peer_search_prompt(app_state: &AppState) -> (prompt: SearchPrompt)
    ensures
        is_peer_prompt(prompt, app_state.ui.peer_management@),
{
    if peer_details_overlay_active(app_state) {
        SearchPrompt {
            title: " Torrent Search ",
            query: app_state.ui.peer_management.details_search_query.clone(),
            mode: app_state.ui.peer_management.details_search_mode,
        }
    } else {
        SearchPrompt {
            title: " Peer Search ",
            query: app_state.ui.peer_management.search_query.clone(),
            mode: app_state.ui.peer_management.search_mode,
        }
    }
}

/// The search of torrent management.
pub fn torrent_search_prompt(app_state: &AppState) -> (prompt: SearchPrompt)
    ensures
        prompt.title@ == " Torrent Search "@,
        prompt.query@ == app_state.ui.torrent_management.search_query@,
        prompt.mode == app_state.ui.torrent_management.search_mode,
{
    SearchPrompt {
        title: " Torrent Search ",
        query: app_state.ui.torrent_management.search_query.clone(),
        mode: app_state.ui.torrent_management.search_mode,
    }
}

/// The search of the journal.
pub fn journal_search_prompt(app_state: &AppState) -> (prompt: SearchPrompt)
    ensures
        prompt.title@ == " Journal Search "@,
        prompt.query@ == app_state.ui.journal.search_query@,
        prompt.mode == app_state.ui.journal.search_mode,
{
    SearchPrompt {
        title: " Journal Search ",
        query: app_state.ui.journal.search_query.clone(),
        mode: app_state.ui.journal.search_mode,
    }
}

/// The search of the help.
pub fn help_search_prompt(app_state: &AppState) -> (prompt: SearchPrompt)
    ensures
        prompt.title@ == " Help Search "@,
        prompt.query@ == app_state.ui.help.search_query@,
        prompt.mode == app_state.ui.help.search_mode,
{
    SearchPrompt {
        title: " Help Search ",
        query: app_state.ui.help.search_query.clone(),
        mode: app_state.ui.help.search_mode,
    }
}

} // verus!
