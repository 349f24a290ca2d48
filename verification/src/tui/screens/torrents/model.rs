//! What the torrent management screen depends on, as values.
use crate::app::{torrent_hashes, AppState, ManagementView, TorrentDisplayState, UiState};
use crate::geometry::Rect;
use crate::lists::byte_strings;
use vstd::prelude::*;

verus! {

/// Everything that the screen reads: its own state, the torrents, the order of
/// the dashboard's list, whether names are hidden, and the size of the terminal.
#[verifier::ext_equal]
pub struct ManagementModel {
    pub tm: ManagementView,
    pub torrents: Seq<TorrentDisplayState>,
    pub list_order: Seq<Seq<u8>>,
    pub anonymize: bool,
    pub screen: Rect,
}

impl ManagementModel {
    pub open spec fn hashes(self) -> Seq<Seq<u8>> {
        torrent_hashes(self.torrents)
    }

    /// Whether there is a torrent of that hash.
    pub open spec fn is_live(self, hash: Seq<u8>) -> bool {
        self.hashes().contains(hash)
    }

    /// No two torrents have the same hash, and there are no more than a machine
    /// can number.
    pub open spec fn well_formed(self) -> bool {
        self.hashes().no_duplicates() && self.torrents.len() <= usize::MAX && self.screen.valid()
    }

    pub open spec fn with_tm(self, tm: ManagementView) -> ManagementModel {
        ManagementModel { tm, ..self }
    }
}

impl AppState {
    pub open spec fn management(self) -> ManagementModel {
        ManagementModel {
            tm: self.ui.torrent_management@,
            torrents: self.torrents@,
            list_order: byte_strings(self.torrent_list_order@),
            anonymize: self.anonymize_torrent_names,
            screen: self.screen_area,
        }
    }

    /// The two states differ at most in what belongs to torrent management and in
    /// whether names are hidden.
    pub open spec fn same_but_management(self, other: AppState) -> bool {
        other == (AppState {
            ui: UiState { torrent_management: other.ui.torrent_management, ..self.ui },
            anonymize_torrent_names: other.anonymize_torrent_names,
            ..self
        })
    }
}

} // verus!
