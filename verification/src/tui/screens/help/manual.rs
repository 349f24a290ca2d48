//! What the help screen says.
use crate::app::{text_view, AppState, HelpSection};
use crate::text::{decimal, format_number, join3, join, owned};
use crate::tui::action_style::ActionTone;
use vstd::prelude::*;
use vstd::string::StringExecFns;

verus! {

/// How the key of an item stands out.
#[derive(Clone, Copy, Debug, PartialEq, Eq, Structural)]
pub enum HelpKeyStyle {
    Plain,
    PeerDownloadOpportunity,
    PeerDownloadBlocked,
    PeerUploadOpportunity,
    PeerUploadRestricted,
    DiskRead,
    DiskWrite,
}

/// One line of help: a key, or a thing on the screen, and what it does.
#[derive(Debug, PartialEq, Eq)]
pub struct HelpItem {
    pub section: HelpSection,
    pub subsection: String,
    pub key: String,
    pub action: String,
    pub key_style: HelpKeyStyle,
    pub action_tone: ActionTone,
}

#[verifier::ext_equal]
pub struct HelpItemView {
    pub section: HelpSection,
    pub subsection: Seq<char>,
    pub key: Seq<char>,
    pub action: Seq<char>,
    pub key_style: HelpKeyStyle,
    pub action_tone: ActionTone,
}

impl View for HelpItem {
    type V = HelpItemView;

    open spec fn view(&self) -> HelpItemView {
        HelpItemView {
            section: self.section,
            subsection: self.subsection@,
            key: self.key@,
            action: self.action@,
            key_style: self.key_style,
            action_tone: self.action_tone,
        }
    }
}

pub open spec fn item_views(items: Seq<HelpItem>) -> Seq<HelpItemView> {
    items.map_values(|item: HelpItem| item@)
}

/// An item that tells what something is.
pub open spec fn told(
    section: HelpSection,
    subsection: Seq<char>,
    key: Seq<char>,
    action: Seq<char>,
) -> HelpItemView {
    HelpItemView {
        section,
        subsection,
        key,
        action,
        key_style: HelpKeyStyle::Plain,
        action_tone: ActionTone::Info,
    }
}

/// An item that tells what a key does.
pub open spec fn done_by(
    section: HelpSection,
    subsection: Seq<char>,
    key: Seq<char>,
    action: Seq<char>,
    action_tone: ActionTone,
) -> HelpItemView {
    HelpItemView { action_tone, ..told(section, subsection, key, action) }
}

/// An item that tells what a mark on the screen means.
pub open spec fn marked(
    section: HelpSection,
    subsection: Seq<char>,
    key: Seq<char>,
    action: Seq<char>,
    key_style: HelpKeyStyle,
) -> HelpItemView {
    HelpItemView { key_style, ..told(section, subsection, key, action) }
}

impl HelpItem {
    pub fn new(section: HelpSection, subsection: &str, key: &str, action: &str) -> (item: HelpItem)
        ensures
            item@ == told(section, subsection@, key@, action@),
    {
        HelpItem {
            section,
            subsection: owned(subsection),
            key: owned(key),
            action: owned(action),
            key_style: HelpKeyStyle::Plain,
            action_tone: ActionTone::Info,
        }
    }

    pub fn with_action_tone(self, action_tone: ActionTone) -> (item: HelpItem)
        ensures
            item@ == (HelpItemView { action_tone, ..self@ }),
    {
        let mut item = self;
        item.action_tone = action_tone;
        item
    }

    pub fn with_key_style(self, key_style: HelpKeyStyle) -> (item: HelpItem)
        ensures
            item@ == (HelpItemView { key_style, ..self@ }),
    {
        let mut item = self;
        item.key_style = key_style;
        item
    }
}

fn push_item(items: &mut Vec<HelpItem>, item: HelpItem)
    ensures
        item_views(final(items)@) == item_views(old(items)@).push(item@),
{
    let ghost was = item_views(items@);
    let ghost view = item@;
    items.push(item);
    assert(item_views(items@) =~= was.push(view));
}

fn tell(items: &mut Vec<HelpItem>, section: HelpSection, subsection: &str, key: &str, action: &str)
    ensures
        item_views(final(items)@) == item_views(old(items)@).push(
            told(section, subsection@, key@, action@),
        ),
{
    push_item(items, HelpItem::new(section, subsection, key, action));
}

fn name_key(
    items: &mut Vec<HelpItem>,
    section: HelpSection,
    subsection: &str,
    key: &str,
    action: &str,
    action_tone: ActionTone,
)
    ensures
        item_views(final(items)@) == item_views(old(items)@).push(
            done_by(section, subsection@, key@, action@, action_tone),
        ),
{
    push_item(
        items,
        HelpItem::new(section, subsection, key, action).with_action_tone(action_tone),
    );
}

fn mark(
    items: &mut Vec<HelpItem>,
    section: HelpSection,
    subsection: &str,
    key: &str,
    action: &str,
    key_style: HelpKeyStyle,
)
    ensures
        item_views(final(items)@) == item_views(old(items)@).push(
            marked(section, subsection@, key@, action@, key_style),
        ),
{
    push_item(items, HelpItem::new(section, subsection, key, action).with_key_style(key_style));
}

// --------------------------------------------------------- what is always said

pub open spec fn general_help_navigation() -> Seq<HelpItemView> {
    let (section, part) = (HelpSection::General, "Help Navigation"@);
    seq![
        done_by(
            section,
            part,
            "Tab / Shift+Tab / h / l"@,
            "Move between help sections"@,
            ActionTone::Mode,
        ),
        done_by(
            section,
            part,
            "Up / Down / k / j"@,
            "Scroll the visible help rows"@,
            ActionTone::Navigate,
        ),
        done_by(
            section,
            part,
            "Esc / m / q"@,
            "Close the field manual and return to the dashboard"@,
            ActionTone::Cancel,
        ),
    ]
}

fn push_general_help_navigation(items: &mut Vec<HelpItem>)
    ensures
        item_views(final(items)@) == item_views(old(items)@) + general_help_navigation(),
{
    let ghost was = item_views(items@);
    let (section, part) = (HelpSection::General, "Help Navigation");
    name_key(
        items,
        section,
        part,
        "Tab / Shift+Tab / h / l",
        "Move between help sections",
        ActionTone::Mode,
    );
    name_key(
        items,
        section,
        part,
        "Up / Down / k / j",
        "Scroll the visible help rows",
        ActionTone::Navigate,
    );
    name_key(
        items,
        section,
        part,
        "Esc / m / q",
        "Close the field manual and return to the dashboard",
        ActionTone::Cancel,
    );
    assert(item_views(items@) =~= was + general_help_navigation());
}

pub open spec fn general_search() -> Seq<HelpItemView> {
    let (section, part) = (HelpSection::General, "Search"@);
    seq![
        done_by(
            section,
            part,
            "/"@,
            "Open search in the current searchable view; in Help, search all help contents"@,
            ActionTone::Search,
        ),
        done_by(
            section,
            part,
            "Tab"@,
            "Toggle fuzzy or regex matching where the active search supports modes"@,
            ActionTone::Mode,
        ),
        done_by(
            section,
            part,
            "Enter / Esc"@,
            "Keep the current results or clear the search and return to this section"@,
            ActionTone::Confirm,
        ),
        done_by(
            section,
            part,
            "Ctrl+u"@,
            "Clear the current query without leaving the search panel"@,
            ActionTone::Clear,
        ),
    ]
}

fn push_general_search(items: &mut Vec<HelpItem>)
    ensures
        item_views(final(items)@) == item_views(old(items)@) + general_search(),
{
    let ghost was = item_views(items@);
    let (section, part) = (HelpSection::General, "Search");
    name_key(
        items,
        section,
        part,
        "/",
        "Open search in the current searchable view; in Help, search all help contents",
        ActionTone::Search,
    );
    name_key(
        items,
        section,
        part,
        "Tab",
        "Toggle fuzzy or regex matching where the active search supports modes",
        ActionTone::Mode,
    );
    name_key(
        items,
        section,
        part,
        "Enter / Esc",
        "Keep the current results or clear the search and return to this section",
        ActionTone::Confirm,
    );
    name_key(
        items,
        section,
        part,
        "Ctrl+u",
        "Clear the current query without leaving the search panel",
        ActionTone::Clear,
    );
    assert(item_views(items@) =~= was + general_search());
}

pub open spec fn general_global_routes() -> Seq<HelpItemView> {
    let (section, part) = (HelpSection::General, "Global Routes"@);
    seq![
        done_by(section, part, "Q (shift+q)"@, "Quit the application"@, ActionTone::Destructive),
        done_by(section, part, "c"@, "Open Config"@, ActionTone::Open),
        done_by(section, part, "r"@, "Open RSS"@, ActionTone::Open),
        done_by(section, part, "J"@, "Open the event journal"@, ActionTone::Open),
        done_by(section, part, "M"@, "Open torrent management"@, ActionTone::Open),
        done_by(section, part, "P"@, "Open peer management"@, ActionTone::Open),
        done_by(section, part, "z"@, "Toggle Zen / Power Saving mode"@, ActionTone::Toggle),
    ]
}

fn push_general_global_routes(items: &mut Vec<HelpItem>)
    ensures
        item_views(final(items)@) == item_views(old(items)@) + general_global_routes(),
{
    let ghost was = item_views(items@);
    let (section, part) = (HelpSection::General, "Global Routes");
    name_key(items, section, part, "Q (shift+q)", "Quit the application", ActionTone::Destructive);
    name_key(items, section, part, "c", "Open Config", ActionTone::Open);
    name_key(items, section, part, "r", "Open RSS", ActionTone::Open);
    name_key(items, section, part, "J", "Open the event journal", ActionTone::Open);
    name_key(items, section, part, "M", "Open torrent management", ActionTone::Open);
    name_key(items, section, part, "P", "Open peer management", ActionTone::Open);
    name_key(items, section, part, "z", "Toggle Zen / Power Saving mode", ActionTone::Toggle);
    assert(item_views(items@) =~= was + general_global_routes());
}

pub open spec fn torrents_adding_torrents() -> Seq<HelpItemView> {
    let (section, part) = (HelpSection::Torrents, "Adding Torrents"@);
    seq![
        done_by(section, part, "a"@, "Choose a .torrent file"@, ActionTone::Add),
        done_by(
            section,
            part,
            "Paste"@,
            "Paste a magnet link or torrent file path"@,
            ActionTone::Paste,
        ),
        done_by(
            section,
            part,
            "CLI"@,
            "Run superseedr add from another terminal"@,
            ActionTone::Add,
        ),
    ]
}

fn push_torrents_adding_torrents(items: &mut Vec<HelpItem>)
    ensures
        item_views(final(items)@) == item_views(old(items)@) + torrents_adding_torrents(),
{
    let ghost was = item_views(items@);
    let (section, part) = (HelpSection::Torrents, "Adding Torrents");
    name_key(items, section, part, "a", "Choose a .torrent file", ActionTone::Add);
    name_key(
        items,
        section,
        part,
        "Paste",
        "Paste a magnet link or torrent file path",
        ActionTone::Paste,
    );
    name_key(
        items,
        section,
        part,
        "CLI",
        "Run superseedr add from another terminal",
        ActionTone::Add,
    );
    assert(item_views(items@) =~= was + torrents_adding_torrents());
}

pub open spec fn torrents_torrent_actions() -> Seq<HelpItemView> {
    let (section, part) = (HelpSection::Torrents, "Torrent Actions"@);
    seq![
        done_by(section, part, "p"@, "Pause or resume the selected torrent"@, ActionTone::Queue),
        done_by(
            section,
            part,
            "d / D"@,
            "Remove the selected torrent; D also removes files after confirmation"@,
            ActionTone::Destructive,
        ),
    ]
}

fn push_torrents_torrent_actions(items: &mut Vec<HelpItem>)
    ensures
        item_views(final(items)@) == item_views(old(items)@) + torrents_torrent_actions(),
{
    let ghost was = item_views(items@);
    let (section, part) = (HelpSection::Torrents, "Torrent Actions");
    name_key(items, section, part, "p", "Pause or resume the selected torrent", ActionTone::Queue);
    name_key(
        items,
        section,
        part,
        "d / D",
        "Remove the selected torrent; D also removes files after confirmation",
        ActionTone::Destructive,
    );
    assert(item_views(items@) =~= was + torrents_torrent_actions());
}

pub open spec fn torrents_table_control() -> Seq<HelpItemView> {
    let (section, part) = (HelpSection::Torrents, "Table Control"@);
    seq![
        done_by(
            section,
            part,
            "h / l / Left / Right"@,
            "Move between table header columns"@,
            ActionTone::Navigate,
        ),
        done_by(section, part, "s"@, "Sort by the focused table column"@, ActionTone::Sort),
        done_by(
            section,
            part,
            "S"@,
            "Clear manual sorting and resume automatic sorting"@,
            ActionTone::Clear,
        ),
    ]
}

fn push_torrents_table_control(items: &mut Vec<HelpItem>)
    ensures
        item_views(final(items)@) == item_views(old(items)@) + torrents_table_control(),
{
    let ghost was = item_views(items@);
    let (section, part) = (HelpSection::Torrents, "Table Control");
    name_key(
        items,
        section,
        part,
        "h / l / Left / Right",
        "Move between table header columns",
        ActionTone::Navigate,
    );
    name_key(items, section, part, "s", "Sort by the focused table column", ActionTone::Sort);
    name_key(
        items,
        section,
        part,
        "S",
        "Clear manual sorting and resume automatic sorting",
        ActionTone::Clear,
    );
    assert(item_views(items@) =~= was + torrents_table_control());
}

pub open spec fn graphs_chart_panels() -> Seq<HelpItemView> {
    let (section, part) = (HelpSection::Graphs, "Chart Panels"@);
    seq![
        done_by(
            section,
            part,
            "t / T"@,
            "Switch graph time scale forward or backward"@,
            ActionTone::Rate,
        ),
        done_by(
            section,
            part,
            "g / G"@,
            "Switch chart panel view forward or backward"@,
            ActionTone::Mode,
        ),
        done_by(section, part, "[ / ]"@, "Change UI refresh rate"@, ActionTone::Rate),
        done_by(section, part, "< / >"@, "Cycle UI theme"@, ActionTone::Theme),
    ]
}

fn push_graphs_chart_panels(items: &mut Vec<HelpItem>)
    ensures
        item_views(final(items)@) == item_views(old(items)@) + graphs_chart_panels(),
{
    let ghost was = item_views(items@);
    let (section, part) = (HelpSection::Graphs, "Chart Panels");
    name_key(
        items,
        section,
        part,
        "t / T",
        "Switch graph time scale forward or backward",
        ActionTone::Rate,
    );
    name_key(
        items,
        section,
        part,
        "g / G",
        "Switch chart panel view forward or backward",
        ActionTone::Mode,
    );
    name_key(items, section, part, "[ / ]", "Change UI refresh rate", ActionTone::Rate);
    name_key(items, section, part, "< / >", "Cycle UI theme", ActionTone::Theme);
    assert(item_views(items@) =~= was + graphs_chart_panels());
}

pub open spec fn graphs_layout() -> Seq<HelpItemView> {
    let (section, part) = (HelpSection::Graphs, "Layout"@);
    seq![
        done_by(section, part, "x"@, "Anonymize torrent names"@, ActionTone::Toggle),
    ]
}

fn push_graphs_layout(items: &mut Vec<HelpItem>)
    ensures
        item_views(final(items)@) == item_views(old(items)@) + graphs_layout(),
{
    let ghost was = item_views(items@);
    let (section, part) = (HelpSection::Graphs, "Layout");
    name_key(items, section, part, "x", "Anonymize torrent names", ActionTone::Toggle);
    assert(item_views(items@) =~= was + graphs_layout());
}

pub open spec fn legends_dht_wave() -> Seq<HelpItemView> {
    let (section, part) = (HelpSection::Legends, "DHT Wave"@);
    seq![
        told(
            section,
            part,
            "DHT panel"@,
            "Power multiplier, active queries, and unique peers found in the last 10s"@,
        ),
    ]
}

fn push_legends_dht_wave(items: &mut Vec<HelpItem>)
    ensures
        item_views(final(items)@) == item_views(old(items)@) + legends_dht_wave(),
{
    let ghost was = item_views(items@);
    let (section, part) = (HelpSection::Legends, "DHT Wave");
    tell(
        items,
        section,
        part,
        "DHT panel",
        "Power multiplier, active queries, and unique peers found in the last 10s",
    );
    assert(item_views(items@) =~= was + legends_dht_wave());
}

pub open spec fn legends_peer_flags() -> Seq<HelpItemView> {
    let (section, part) = (HelpSection::Legends, "Peer Flags"@);
    seq![
        marked(
            section,
            part,
            "Blue"@,
            "You are interested (DL potential)"@,
            HelpKeyStyle::PeerDownloadOpportunity,
        ),
        marked(
            section,
            part,
            "Red"@,
            "Peer is choking you (DL block)"@,
            HelpKeyStyle::PeerDownloadBlocked,
        ),
        marked(
            section,
            part,
            "Teal"@,
            "Peer is interested (UL opportunity)"@,
            HelpKeyStyle::PeerUploadOpportunity,
        ),
        marked(
            section,
            part,
            "Peach"@,
            "You are choking peer (UL restriction)"@,
            HelpKeyStyle::PeerUploadRestricted,
        ),
    ]
}

fn push_legends_peer_flags(items: &mut Vec<HelpItem>)
    ensures
        item_views(final(items)@) == item_views(old(items)@) + legends_peer_flags(),
{
    let ghost was = item_views(items@);
    let (section, part) = (HelpSection::Legends, "Peer Flags");
    mark(
        items,
        section,
        part,
        "Blue",
        "You are interested (DL potential)",
        HelpKeyStyle::PeerDownloadOpportunity,
    );
    mark(
        items,
        section,
        part,
        "Red",
        "Peer is choking you (DL block)",
        HelpKeyStyle::PeerDownloadBlocked,
    );
    mark(
        items,
        section,
        part,
        "Teal",
        "Peer is interested (UL opportunity)",
        HelpKeyStyle::PeerUploadOpportunity,
    );
    mark(
        items,
        section,
        part,
        "Peach",
        "You are choking peer (UL restriction)",
        HelpKeyStyle::PeerUploadRestricted,
    );
    assert(item_views(items@) =~= was + legends_peer_flags());
}

pub open spec fn legends_disk_metrics() -> Seq<HelpItemView> {
    let (section, part) = (HelpSection::Legends, "Disk Metrics"@);
    seq![
        marked(section, part, "Read"@, "Data read from disk"@, HelpKeyStyle::DiskRead),
        marked(section, part, "Write"@, "Data written to disk"@, HelpKeyStyle::DiskWrite),
        told(section, part, "Seek"@, "Avg. distance between I/O ops; lower is better"@),
        told(section, part, "Latency"@, "Time to complete one I/O op; lower is better"@),
        told(section, part, "IOPS"@, "I/O Operations Per Second; total workload"@),
    ]
}

fn push_legends_disk_metrics(items: &mut Vec<HelpItem>)
    ensures
        item_views(final(items)@) == item_views(old(items)@) + legends_disk_metrics(),
{
    let ghost was = item_views(items@);
    let (section, part) = (HelpSection::Legends, "Disk Metrics");
    mark(items, section, part, "Read", "Data read from disk", HelpKeyStyle::DiskRead);
    mark(items, section, part, "Write", "Data written to disk", HelpKeyStyle::DiskWrite);
    tell(items, section, part, "Seek", "Avg. distance between I/O ops; lower is better");
    tell(items, section, part, "Latency", "Time to complete one I/O op; lower is better");
    tell(items, section, part, "IOPS", "I/O Operations Per Second; total workload");
    assert(item_views(items@) =~= was + legends_disk_metrics());
}

pub open spec fn legends_self_tuning() -> Seq<HelpItemView> {
    let (section, part) = (HelpSection::Legends, "Self Tuning"@);
    seq![
        told(
            section,
            part,
            "Self-Tune"@,
            "Tuning state and countdown to the next adjustment cycle"@,
        ),
        told(
            section,
            part,
            "Resource rows"@,
            "Current limits for peers, reads, writes, and reserve capacity"@,
        ),
    ]
}

fn push_legends_self_tuning(items: &mut Vec<HelpItem>)
    ensures
        item_views(final(items)@) == item_views(old(items)@) + legends_self_tuning(),
{
    let ghost was = item_views(items@);
    let (section, part) = (HelpSection::Legends, "Self Tuning");
    tell(
        items,
        section,
        part,
        "Self-Tune",
        "Tuning state and countdown to the next adjustment cycle",
    );
    tell(
        items,
        section,
        part,
        "Resource rows",
        "Current limits for peers, reads, writes, and reserve capacity",
    );
    assert(item_views(items@) =~= was + legends_self_tuning());
}

pub open spec fn screens_rss() -> Seq<HelpItemView> {
    let (section, part) = (HelpSection::Screens, "RSS"@);
    seq![
        done_by(
            section,
            part,
            "Tab / h"@,
            "Move RSS focus or swap Explorer with History"@,
            ActionTone::Mode,
        ),
        done_by(section, part, "s"@, "Sync feeds now"@, ActionTone::Rate),
        done_by(
            section,
            part,
            "a / D / Space"@,
            "Add, delete, or toggle the focused RSS item"@,
            ActionTone::Toggle,
        ),
        done_by(section, part, "Enter"@, "Confirm add or search input"@, ActionTone::Confirm),
        done_by(
            section,
            part,
            "Y"@,
            "Download the selected Explorer item if it has not been downloaded"@,
            ActionTone::Confirm,
        ),
    ]
}

fn push_screens_rss(items: &mut Vec<HelpItem>)
    ensures
        item_views(final(items)@) == item_views(old(items)@) + screens_rss(),
{
    let ghost was = item_views(items@);
    let (section, part) = (HelpSection::Screens, "RSS");
    name_key(
        items,
        section,
        part,
        "Tab / h",
        "Move RSS focus or swap Explorer with History",
        ActionTone::Mode,
    );
    name_key(items, section, part, "s", "Sync feeds now", ActionTone::Rate);
    name_key(
        items,
        section,
        part,
        "a / D / Space",
        "Add, delete, or toggle the focused RSS item",
        ActionTone::Toggle,
    );
    name_key(items, section, part, "Enter", "Confirm add or search input", ActionTone::Confirm);
    name_key(
        items,
        section,
        part,
        "Y",
        "Download the selected Explorer item if it has not been downloaded",
        ActionTone::Confirm,
    );
    assert(item_views(items@) =~= was + screens_rss());
}

pub open spec fn screens_torrent_management() -> Seq<HelpItemView> {
    let (section, part) = (HelpSection::Screens, "Torrent Management"@);
    seq![
        done_by(
            section,
            part,
            "Up / Down / k / j"@,
            "Move selection through visible torrents"@,
            ActionTone::Navigate,
        ),
        done_by(
            section,
            part,
            "Page Up / Page Down / Home / End"@,
            "Move by a page or jump to the first or last visible torrent"@,
            ActionTone::Navigate,
        ),
        done_by(
            section,
            part,
            "h / l / Left / Right"@,
            "Move between table columns"@,
            ActionTone::Navigate,
        ),
        done_by(section, part, "s"@, "Sort by the focused column"@, ActionTone::Sort),
        done_by(section, part, "x"@, "Toggle anonymized torrent names"@, ActionTone::Toggle),
        done_by(
            section,
            part,
            "Space / A"@,
            "Select the current torrent or all visible torrents"@,
            ActionTone::Select,
        ),
        done_by(
            section,
            part,
            "f"@,
            "Open files for the highlighted torrent"@,
            ActionTone::Navigate,
        ),
        done_by(
            section,
            part,
            "p"@,
            "Queue pause or resume for the current target set"@,
            ActionTone::Queue,
        ),
        done_by(
            section,
            part,
            "d / D"@,
            "Queue remove, or purge files with D, for the current target set"@,
            ActionTone::Destructive,
        ),
        done_by(
            section,
            part,
            "Y / Enter"@,
            "Review queued commands with Y; submit from review with Enter"@,
            ActionTone::Confirm,
        ),
        done_by(
            section,
            part,
            "u"@,
            "Clear the current selection and its draft commands"@,
            ActionTone::Clear,
        ),
    ]
}

fn push_screens_torrent_management(items: &mut Vec<HelpItem>)
    ensures
        item_views(final(items)@) == item_views(old(items)@) + screens_torrent_management(),
{
    let ghost was = item_views(items@);
    let (section, part) = (HelpSection::Screens, "Torrent Management");
    name_key(
        items,
        section,
        part,
        "Up / Down / k / j",
        "Move selection through visible torrents",
        ActionTone::Navigate,
    );
    name_key(
        items,
        section,
        part,
        "Page Up / Page Down / Home / End",
        "Move by a page or jump to the first or last visible torrent",
        ActionTone::Navigate,
    );
    name_key(
        items,
        section,
        part,
        "h / l / Left / Right",
        "Move between table columns",
        ActionTone::Navigate,
    );
    name_key(items, section, part, "s", "Sort by the focused column", ActionTone::Sort);
    name_key(items, section, part, "x", "Toggle anonymized torrent names", ActionTone::Toggle);
    name_key(
        items,
        section,
        part,
        "Space / A",
        "Select the current torrent or all visible torrents",
        ActionTone::Select,
    );
    name_key(
        items,
        section,
        part,
        "f",
        "Open files for the highlighted torrent",
        ActionTone::Navigate,
    );
    name_key(
        items,
        section,
        part,
        "p",
        "Queue pause or resume for the current target set",
        ActionTone::Queue,
    );
    name_key(
        items,
        section,
        part,
        "d / D",
        "Queue remove, or purge files with D, for the current target set",
        ActionTone::Destructive,
    );
    name_key(
        items,
        section,
        part,
        "Y / Enter",
        "Review queued commands with Y; submit from review with Enter",
        ActionTone::Confirm,
    );
    name_key(
        items,
        section,
        part,
        "u",
        "Clear the current selection and its draft commands",
        ActionTone::Clear,
    );
    assert(item_views(items@) =~= was + screens_torrent_management());
}

pub open spec fn screens_peer_management() -> Seq<HelpItemView> {
    let (section, part) = (HelpSection::Screens, "Peer Management"@);
    seq![
        done_by(
            section,
            part,
            "Up / Down / k / j"@,
            "Move selection through tracked and restricted peers"@,
            ActionTone::Navigate,
        ),
        done_by(
            section,
            part,
            "Tab / Shift+Tab"@,
            "Cycle All, Active, Recent, and Restricted filters"@,
            ActionTone::Mode,
        ),
        done_by(
            section,
            part,
            "h / l / Left / Right"@,
            "Move between table columns; s sorts the focused column"@,
            ActionTone::Sort,
        ),
        done_by(
            section,
            part,
            "/"@,
            "Search peer addresses, endpoints, torrents, states, and restriction reasons"@,
            ActionTone::Search,
        ),
        done_by(
            section,
            part,
            "Enter"@,
            "Open or close full peer details on compact layouts"@,
            ActionTone::Open,
        ),
        done_by(
            section,
            part,
            "x"@,
            "Toggle privacy masking for peer and torrent identities"@,
            ActionTone::Toggle,
        ),
    ]
}

fn push_screens_peer_management(items: &mut Vec<HelpItem>)
    ensures
        item_views(final(items)@) == item_views(old(items)@) + screens_peer_management(),
{
    let ghost was = item_views(items@);
    let (section, part) = (HelpSection::Screens, "Peer Management");
    name_key(
        items,
        section,
        part,
        "Up / Down / k / j",
        "Move selection through tracked and restricted peers",
        ActionTone::Navigate,
    );
    name_key(
        items,
        section,
        part,
        "Tab / Shift+Tab",
        "Cycle All, Active, Recent, and Restricted filters",
        ActionTone::Mode,
    );
    name_key(
        items,
        section,
        part,
        "h / l / Left / Right",
        "Move between table columns; s sorts the focused column",
        ActionTone::Sort,
    );
    name_key(
        items,
        section,
        part,
        "/",
        "Search peer addresses, endpoints, torrents, states, and restriction reasons",
        ActionTone::Search,
    );
    name_key(
        items,
        section,
        part,
        "Enter",
        "Open or close full peer details on compact layouts",
        ActionTone::Open,
    );
    name_key(
        items,
        section,
        part,
        "x",
        "Toggle privacy masking for peer and torrent identities",
        ActionTone::Toggle,
    );
    assert(item_views(items@) =~= was + screens_peer_management());
}

pub open spec fn screens_journal() -> Seq<HelpItemView> {
    let (section, part) = (HelpSection::Screens, "Journal"@);
    seq![
        done_by(
            section,
            part,
            "Tab / Shift+Tab"@,
            "Cycle event journal filters"@,
            ActionTone::Mode,
        ),
        done_by(
            section,
            part,
            "Page Up / Page Down"@,
            "Move through journal activities by one visible page"@,
            ActionTone::Navigate,
        ),
        done_by(
            section,
            part,
            "/"@,
            "Search the current journal filter; use Tab to toggle fuzzy or regex matching"@,
            ActionTone::Search,
        ),
        done_by(
            section,
            part,
            "Y"@,
            "Replay selected archived torrent, magnet, or path source"@,
            ActionTone::Replay,
        ),
    ]
}

fn push_screens_journal(items: &mut Vec<HelpItem>)
    ensures
        item_views(final(items)@) == item_views(old(items)@) + screens_journal(),
{
    let ghost was = item_views(items@);
    let (section, part) = (HelpSection::Screens, "Journal");
    name_key(
        items,
        section,
        part,
        "Tab / Shift+Tab",
        "Cycle event journal filters",
        ActionTone::Mode,
    );
    name_key(
        items,
        section,
        part,
        "Page Up / Page Down",
        "Move through journal activities by one visible page",
        ActionTone::Navigate,
    );
    name_key(
        items,
        section,
        part,
        "/",
        "Search the current journal filter; use Tab to toggle fuzzy or regex matching",
        ActionTone::Search,
    );
    name_key(
        items,
        section,
        part,
        "Y",
        "Replay selected archived torrent, magnet, or path source",
        ActionTone::Replay,
    );
    assert(item_views(items@) =~= was + screens_journal());
}

pub open spec fn screens_config() -> Seq<HelpItemView> {
    let (section, part) = (HelpSection::Screens, "Config"@);
    seq![
        done_by(
            section,
            part,
            "Space"@,
            "Shift or open the selected control"@,
            ActionTone::Navigate,
        ),
        done_by(
            section,
            part,
            "h / l"@,
            "Move backward or forward through choices"@,
            ActionTone::Navigate,
        ),
        done_by(
            section,
            part,
            "r"@,
            "Open confirmation before resetting the focused setting"@,
            ActionTone::Clear,
        ),
        done_by(section, part, "Esc / q"@, "Close Config immediately"@, ActionTone::Cancel),
    ]
}

fn push_screens_config(items: &mut Vec<HelpItem>)
    ensures
        item_views(final(items)@) == item_views(old(items)@) + screens_config(),
{
    let ghost was = item_views(items@);
    let (section, part) = (HelpSection::Screens, "Config");
    name_key(
        items,
        section,
        part,
        "Space",
        "Shift or open the selected control",
        ActionTone::Navigate,
    );
    name_key(
        items,
        section,
        part,
        "h / l",
        "Move backward or forward through choices",
        ActionTone::Navigate,
    );
    name_key(
        items,
        section,
        part,
        "r",
        "Open confirmation before resetting the focused setting",
        ActionTone::Clear,
    );
    name_key(items, section, part, "Esc / q", "Close Config immediately", ActionTone::Cancel);
    assert(item_views(items@) =~= was + screens_config());
}

pub open spec fn screens_config_editing() -> Seq<HelpItemView> {
    let (section, part) = (HelpSection::Screens, "Config · Editing"@);
    seq![
        done_by(
            section,
            part,
            "Enter / Esc"@,
            "Apply the edited value or cancel the current edit"@,
            ActionTone::Edit,
        ),
    ]
}

fn push_screens_config_editing(items: &mut Vec<HelpItem>)
    ensures
        item_views(final(items)@) == item_views(old(items)@) + screens_config_editing(),
{
    let ghost was = item_views(items@);
    let (section, part) = (HelpSection::Screens, "Config · Editing");
    name_key(
        items,
        section,
        part,
        "Enter / Esc",
        "Apply the edited value or cancel the current edit",
        ActionTone::Edit,
    );
    assert(item_views(items@) =~= was + screens_config_editing());
}

pub open spec fn screens_config_path_picker() -> Seq<HelpItemView> {
    let (section, part) = (HelpSection::Screens, "Config · Path Picker"@);
    seq![
        done_by(
            section,
            part,
            "Y"@,
            "Apply the confirmed path and return to Config"@,
            ActionTone::Confirm,
        ),
    ]
}

fn push_screens_config_path_picker(items: &mut Vec<HelpItem>)
    ensures
        item_views(final(items)@) == item_views(old(items)@) + screens_config_path_picker(),
{
    let ghost was = item_views(items@);
    let (section, part) = (HelpSection::Screens, "Config · Path Picker");
    name_key(
        items,
        section,
        part,
        "Y",
        "Apply the confirmed path and return to Config",
        ActionTone::Confirm,
    );
    assert(item_views(items@) =~= was + screens_config_path_picker());
}

pub open spec fn screens_config_compact_details() -> Seq<HelpItemView> {
    let (section, part) = (HelpSection::Screens, "Config · Compact Details"@);
    seq![
        done_by(section, part, "Esc"@, "Return to the settings list"@, ActionTone::Navigate),
    ]
}

fn push_screens_config_compact_details(items: &mut Vec<HelpItem>)
    ensures
        item_views(final(items)@) == item_views(old(items)@) + screens_config_compact_details(),
{
    let ghost was = item_views(items@);
    let (section, part) = (HelpSection::Screens, "Config · Compact Details");
    name_key(items, section, part, "Esc", "Return to the settings list", ActionTone::Navigate);
    assert(item_views(items@) =~= was + screens_config_compact_details());
}

pub open spec fn screens_file_browser() -> Seq<HelpItemView> {
    let (section, part) = (HelpSection::Screens, "File Browser"@);
    seq![
        done_by(
            section,
            part,
            "Y"@,
            "Confirm the current file-browser action"@,
            ActionTone::Confirm,
        ),
    ]
}

fn push_screens_file_browser(items: &mut Vec<HelpItem>)
    ensures
        item_views(final(items)@) == item_views(old(items)@) + screens_file_browser(),
{
    let ghost was = item_views(items@);
    let (section, part) = (HelpSection::Screens, "File Browser");
    name_key(
        items,
        section,
        part,
        "Y",
        "Confirm the current file-browser action",
        ActionTone::Confirm,
    );
    assert(item_views(items@) =~= was + screens_file_browser());
}

pub open spec fn screens_delete_confirm() -> Seq<HelpItemView> {
    let (section, part) = (HelpSection::Screens, "Delete Confirm"@);
    seq![
        done_by(section, part, "Y"@, "Confirm delete"@, ActionTone::Destructive),
    ]
}

fn push_screens_delete_confirm(items: &mut Vec<HelpItem>)
    ensures
        item_views(final(items)@) == item_views(old(items)@) + screens_delete_confirm(),
{
    let ghost was = item_views(items@);
    let (section, part) = (HelpSection::Screens, "Delete Confirm");
    name_key(items, section, part, "Y", "Confirm delete", ActionTone::Destructive);
    assert(item_views(items@) =~= was + screens_delete_confirm());
}

pub open spec fn general_items() -> Seq<HelpItemView> {
    general_help_navigation() + general_search() + general_global_routes()
}

fn push_general_items(items: &mut Vec<HelpItem>)
    ensures
        item_views(final(items)@) == item_views(old(items)@) + general_items(),
{
    let ghost was = item_views(items@);
    push_general_help_navigation(items);
    push_general_search(items);
    push_general_global_routes(items);
    assert(item_views(items@) =~= was + general_items());
}

pub open spec fn torrents_items() -> Seq<HelpItemView> {
    torrents_adding_torrents() + torrents_torrent_actions() + torrents_table_control()
}

fn push_torrents_items(items: &mut Vec<HelpItem>)
    ensures
        item_views(final(items)@) == item_views(old(items)@) + torrents_items(),
{
    let ghost was = item_views(items@);
    push_torrents_adding_torrents(items);
    push_torrents_torrent_actions(items);
    push_torrents_table_control(items);
    assert(item_views(items@) =~= was + torrents_items());
}

pub open spec fn graphs_items() -> Seq<HelpItemView> {
    graphs_chart_panels() + graphs_layout()
}

fn push_graphs_items(items: &mut Vec<HelpItem>)
    ensures
        item_views(final(items)@) == item_views(old(items)@) + graphs_items(),
{
    let ghost was = item_views(items@);
    push_graphs_chart_panels(items);
    push_graphs_layout(items);
    assert(item_views(items@) =~= was + graphs_items());
}

pub open spec fn legends_items() -> Seq<HelpItemView> {
    legends_dht_wave() + legends_peer_flags() + legends_disk_metrics() + legends_self_tuning()
}

fn push_legends_items(items: &mut Vec<HelpItem>)
    ensures
        item_views(final(items)@) == item_views(old(items)@) + legends_items(),
{
    let ghost was = item_views(items@);
    push_legends_dht_wave(items);
    push_legends_peer_flags(items);
    push_legends_disk_metrics(items);
    push_legends_self_tuning(items);
    assert(item_views(items@) =~= was + legends_items());
}

pub open spec fn screens_items() -> Seq<HelpItemView> {
    screens_rss() + screens_torrent_management() + screens_peer_management() + screens_journal()
        + screens_config() + screens_config_editing() + screens_config_path_picker()
        + screens_config_compact_details() + screens_file_browser() + screens_delete_confirm()
}

fn push_screens_items(items: &mut Vec<HelpItem>)
    ensures
        item_views(final(items)@) == item_views(old(items)@) + screens_items(),
{
    let ghost was = item_views(items@);
    push_screens_rss(items);
    push_screens_torrent_management(items);
    push_screens_peer_management(items);
    push_screens_journal(items);
    push_screens_config(items);
    push_screens_config_editing(items);
    push_screens_config_path_picker(items);
    push_screens_config_compact_details(items);
    push_screens_file_browser(items);
    push_screens_delete_confirm(items);
    assert(item_views(items@) =~= was + screens_items());
}

// ------------------------------------------------- what depends on the session

/// What the program knows of the session and of itself.
pub struct HelpFacts {
    pub shared_mode: bool,
    pub settings_path: Option<String>,
    pub log_files: Option<String>,
    pub watch_path: Option<String>,
    pub shared_inbox: Option<String>,
    pub level: u64,
    pub percent_to_next_level: String,
    pub has_dht: bool,
    pub has_pex: bool,
}

pub open spec fn or_word(text: Option<String>, word: Seq<char>) -> Seq<char> {
    match text {
        Some(text) => text@,
        None => word,
    }
}

fn text_or(text: &Option<String>, word: &str) -> (result: String)
    ensures
        result@ == or_word(*text, word@),
{
    match text {
        Some(text) => text.clone(),
        None => owned(word),
    }
}

/// A path, or that it is not used.
pub fn display_path_or_disabled(path: &Option<String>) -> (text: String)
    ensures
        text@ == or_word(*path, "Disabled"@),
{
    text_or(path, "Disabled")
}

/// What is said of a path or a role, under a name.
pub struct FooterEntry {
    pub label: &'static str,
    pub value: String,
}

pub open spec fn entry_views(entries: Seq<FooterEntry>) -> Seq<(Seq<char>, Seq<char>)> {
    entries.map_values(|entry: FooterEntry| (entry.label@, entry.value@))
}

/// Where things are, and the part that this host plays.
pub open spec fn footer_entries(
    facts: HelpFacts,
    role: Option<Seq<char>>,
    runtime: Option<Seq<char>>,
) -> Seq<(Seq<char>, Seq<char>)> {
    let paths = if facts.shared_mode {
        seq![
            ("Settings"@, or_word(facts.settings_path, "Unknown location"@)),
            ("Log Files"@, or_word(facts.log_files, "Unknown location"@)),
            ("Host Watch"@, or_word(facts.watch_path, "Disabled"@)),
            ("Shared Inbox"@, or_word(facts.shared_inbox, "Unknown location"@)),
        ]
    } else {
        seq![
            ("Settings"@, or_word(facts.settings_path, "Unknown location"@)),
            ("Log Files"@, or_word(facts.log_files, "Unknown location"@)),
            ("Watch Dir"@, or_word(facts.watch_path, "Disabled"@)),
        ]
    };
    let with_role = match role {
        Some(role) => paths.push(("Cluster"@, role)),
        None => paths,
    };
    match runtime {
        Some(runtime) => with_role.push(("Runtime"@, runtime)),
        None => with_role,
    }
}

fn push_entry(entries: &mut Vec<FooterEntry>, label: &'static str, value: String)
    ensures
        entry_views(final(entries)@) == entry_views(old(entries)@).push((label@, value@)),
{
    let ghost was = entry_views(entries@);
    let ghost view = (label@, value@);
    entries.push(FooterEntry { label, value });
    assert(entry_views(entries@) =~= was.push(view));
}

/// Where things are, and the part that this host plays.
pub fn build_help_footer_entries(facts: &HelpFacts, app_state: &AppState) -> (entries: Vec<
    FooterEntry,
>)
    ensures
        entry_views(entries@) == footer_entries(
            *facts,
            text_view(app_state.cluster_role_label),
            text_view(app_state.cluster_runtime_label),
        ),
{
    let mut entries: Vec<FooterEntry> = Vec::new();
    assert(entry_views(entries@) =~= Seq::<(Seq<char>, Seq<char>)>::empty());
    push_entry(&mut entries, "Settings", text_or(&facts.settings_path, "Unknown location"));
    push_entry(&mut entries, "Log Files", text_or(&facts.log_files, "Unknown location"));
    if facts.shared_mode {
        push_entry(&mut entries, "Host Watch", display_path_or_disabled(&facts.watch_path));
        push_entry(&mut entries, "Shared Inbox", text_or(&facts.shared_inbox, "Unknown location"));
    } else {
        push_entry(&mut entries, "Watch Dir", display_path_or_disabled(&facts.watch_path));
    }
    if let Some(role) = &app_state.cluster_role_label {
        push_entry(&mut entries, "Cluster", role.clone());
    }
    if let Some(runtime) = &app_state.cluster_runtime_label {
        push_entry(&mut entries, "Runtime", runtime.clone());
    }
    assert(entry_views(entries@) =~= footer_entries(
        *facts,
        text_view(app_state.cluster_role_label),
        text_view(app_state.cluster_runtime_label),
    ));
    entries
}

/// The level of the session.
pub open spec fn level_item(facts: HelpFacts) -> HelpItemView {
    told(
        HelpSection::Legends,
        "Session Level"@,
        "Progress"@,
        "Level "@ + decimal(facts.level as nat) + " with "@ + (facts.percent_to_next_level@
            + "% progress to next level"@),
    )
}

fn push_level_item(items: &mut Vec<HelpItem>, facts: &HelpFacts)
    ensures
        item_views(final(items)@) == item_views(old(items)@).push(level_item(*facts)),
{
    let level = join3("Level ", format_number(facts.level).as_str(), " with ");
    let progress = join(facts.percent_to_next_level.as_str(), "% progress to next level");
    let action = join(level.as_str(), progress.as_str());
    tell(items, HelpSection::Legends, "Session Level", "Progress", action.as_str());
}

/// What is said of a path or a role.
pub open spec fn path_item(entry: (Seq<char>, Seq<char>)) -> HelpItemView {
    told(
        HelpSection::Paths,
        "Runtime Paths"@,
        entry.0,
        if entry.1.len() == 0 {
            "Unknown location"@
        } else {
            entry.1
        },
    )
}

fn push_path_items(items: &mut Vec<HelpItem>, entries: &Vec<FooterEntry>)
    ensures
        item_views(final(items)@) == item_views(old(items)@) + entry_views(entries@).map_values(
            |entry: (Seq<char>, Seq<char>)| path_item(entry),
        ),
{
    let ghost was = item_views(items@);
    let ghost all = entry_views(entries@);
    let ghost f = |entry: (Seq<char>, Seq<char>)| path_item(entry);
    let mut k: usize = 0;
    assert(item_views(items@) =~= was + all.take(0).map_values(f));
    while k < entries.len()
        invariant
            k <= entries@.len(),
            all == entry_views(entries@),
            f == (|entry: (Seq<char>, Seq<char>)| path_item(entry)),
            item_views(items@) == was + all.take(k as int).map_values(f),
        decreases entries@.len() - k,
    {
        let entry = &entries[k];
        let value = if entry.value.as_str().is_empty() {
            "Unknown location"
        } else {
            entry.value.as_str()
        };
        assert(all[k as int] == (entry.label@, entry.value@));
        tell(items, HelpSection::Paths, "Runtime Paths", entry.label, value);
        assert(all.take(k + 1).map_values(f) =~= all.take(k as int).map_values(f).push(
            f(all[k as int]),
        ));
        assert(item_views(items@) =~= was + all.take(k + 1).map_values(f));
        k = k + 1;
    }
    assert(all.take(k as int) =~= all);
}

/// Where shared settings come from.
pub open spec fn shared_items(facts: HelpFacts) -> Seq<HelpItemView> {
    if facts.shared_mode {
        seq![
            told(
                HelpSection::Paths,
                "Shared Mode"@,
                "Shared mode"@,
                "Settings and inbox paths come from the shared configuration root"@,
            ),
        ]
    } else {
        Seq::empty()
    }
}

pub open spec fn feature_text(included: bool) -> Seq<char> {
    if included {
        "Included in this build"@
    } else {
        "Not included in this private build"@
    }
}

/// What the program was built with.
pub open spec fn build_items(facts: HelpFacts) -> Seq<HelpItemView> {
    let (section, part) = (HelpSection::Build, "Feature Set"@);
    seq![
        told(section, part, "DHT"@, feature_text(facts.has_dht)),
        told(section, part, "PEX"@, feature_text(facts.has_pex)),
        told(
            section,
            part,
            "Private mode"@,
            if facts.has_dht && facts.has_pex {
                "Normal public-tracker feature set"@
            } else {
                "Private-tracker feature set with public discovery disabled"@
            },
        ),
    ]
}

fn feature(included: bool) -> (text: &'static str)
    ensures
        text@ == feature_text(included),
{
    if included {
        "Included in this build"
    } else {
        "Not included in this private build"
    }
}

fn push_build_items(items: &mut Vec<HelpItem>, facts: &HelpFacts)
    ensures
        item_views(final(items)@) == item_views(old(items)@) + build_items(*facts),
{
    let ghost was = item_views(items@);
    let (section, part) = (HelpSection::Build, "Feature Set");
    tell(items, section, part, "DHT", feature(facts.has_dht));
    tell(items, section, part, "PEX", feature(facts.has_pex));
    tell(
        items,
        section,
        part,
        "Private mode",
        if facts.has_dht && facts.has_pex {
            "Normal public-tracker feature set"
        } else {
            "Private-tracker feature set with public discovery disabled"
        },
    );
    assert(item_views(items@) =~= was + build_items(*facts));
}

/// All that the help screen says.
pub open spec fn manual(
    facts: HelpFacts,
    role: Option<Seq<char>>,
    runtime: Option<Seq<char>>,
) -> Seq<HelpItemView> {
    (general_items() + torrents_items() + graphs_items() + legends_items() + screens_items()).push(
        level_item(facts),
    ) + footer_entries(facts, role, runtime).map_values(
        |entry: (Seq<char>, Seq<char>)| path_item(entry),
    ) + shared_items(facts) + build_items(facts)
}

/// All that the help screen says.
pub fn build_help_items(facts: &HelpFacts, app_state: &AppState) -> (items: Vec<HelpItem>)
    ensures
        item_views(items@) == manual(
            *facts,
            text_view(app_state.cluster_role_label),
            text_view(app_state.cluster_runtime_label),
        ),
{
    let mut items: Vec<HelpItem> = Vec::new();
    assert(item_views(items@) =~= Seq::<HelpItemView>::empty());
    push_general_items(&mut items);
    assert(item_views(items@) =~= general_items());
    push_torrents_items(&mut items);
    push_graphs_items(&mut items);
    push_legends_items(&mut items);
    push_screens_items(&mut items);
    push_level_item(&mut items, facts);
    let entries = build_help_footer_entries(facts, app_state);
    push_path_items(&mut items, &entries);
    let ghost was = item_views(items@);
    if facts.shared_mode {
        tell(
            &mut items,
            HelpSection::Paths,
            "Shared Mode",
            "Shared mode",
            "Settings and inbox paths come from the shared configuration root",
        );
    }
    assert(item_views(items@) =~= was + shared_items(*facts));
    push_build_items(&mut items, facts);
    items
}

} // verus!
