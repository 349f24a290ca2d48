//! The journal of what happened in a session.
use crate::paths::FilePath;
use vstd::prelude::*;

verus! {

/// Whether an event concerns one host or all that share their state.
#[derive(Clone, Copy, Debug, PartialEq, Eq, Structural)]
pub enum EventScope {
    Host,
    Shared,
}

#[derive(Clone, Copy, Debug, PartialEq, Eq, Structural)]
pub enum EventCategory {
    Ingest,
    Control,
    DataHealth,
    TorrentLifecycle,
}

#[derive(Clone, Copy, Debug, PartialEq, Eq, Structural)]
pub enum EventType {
    IngestQueued,
    IngestAdded,
    IngestDuplicate,
    IngestInvalid,
    IngestFailed,
    TorrentCompleted,
    DataUnavailable,
    DataRecovered,
    ControlQueued,
    ControlApplied,
    ControlFailed,
}

/// What an event says beyond its message: the action of a command, or something
/// that the journal does not show.
#[derive(Debug, PartialEq, Eq)]
pub enum EventDetails {
    Control { action: String },
    Other,
}

#[derive(Debug, PartialEq, Eq)]
pub struct EventJournalEntry {
    pub id: u64,
    pub ts_iso: String,
    pub scope: EventScope,
    pub host_id: Option<String>,
    pub category: EventCategory,
    pub event_type: EventType,
    pub correlation_id: Option<String>,
    pub torrent_name: Option<String>,
    pub info_hash_hex: Option<String>,
    pub source_path: Option<FilePath>,
    pub source_watch_folder: Option<FilePath>,
    pub message: Option<String>,
    pub details: EventDetails,
}

impl Default for EventJournalEntry {
    fn default() -> (entry: EventJournalEntry)
        ensures
            entry.id == 0,
            entry.ts_iso@.len() == 0,
            entry.scope == EventScope::Host,
            entry.host_id is None,
            entry.category == EventCategory::Ingest,
            entry.event_type == EventType::IngestQueued,
            entry.correlation_id is None,
            entry.torrent_name is None,
            entry.info_hash_hex is None,
            entry.source_path is None,
            entry.source_watch_folder is None,
            entry.message is None,
            entry.details is Other,
    {
        EventJournalEntry {
            id: 0,
            ts_iso: String::new(),
            scope: EventScope::Host,
            host_id: None,
            category: EventCategory::Ingest,
            event_type: EventType::IngestQueued,
            correlation_id: None,
            torrent_name: None,
            info_hash_hex: None,
            source_path: None,
            source_watch_folder: None,
            message: None,
            details: EventDetails::Other,
        }
    }
}

/// The events, the oldest first.
pub struct EventJournalState {
    pub entries: Vec<EventJournalEntry>,
}

} // verus!
