//! What the settings screen shows.
use crate::config::{Settings, SettingsView};
use crate::geometry::{min_int, monus, Rect};
use crate::lists::texts;
use crate::text::{decimal, format_number, join, join3, owned};
use crate::tui::action_style::{hint, hint_views, push_hint, ActionTone, HintView, KeyHint};
use crate::tui::layout::config::ConfigLayoutKind;
use crate::tui::screens::config::list::{
    categories, config_list_rows, control_of, descriptor_for_item, label_of, rows_of,
    ConfigCategory, ConfigControlKind, ConfigItem, ConfigListRow,
};
use crate::tui::screens::config::{edit_view, is_shared_path, shared_path_is_manual, ConfigPane};
use vstd::prelude::*;
use vstd::string::{StrSliceExecFns, StringExecFns};

verus! {

// ------------------------------------------------------------------ the areas

/// How many cells a pane keeps free on each side.
#[derive(Clone, Copy, Debug, PartialEq, Eq, Structural)]
pub struct Margin {
    pub horizontal: u16,
    pub vertical: u16,
}

/// How many cells a pane keeps free: more the larger it is.
pub open spec fn pane_margin(area: Rect) -> Margin {
    Margin {
        horizontal: if area.width >= 70 {
            3
        } else if area.width >= 30 {
            2
        } else {
            1
        },
        vertical: if area.height >= 18 {
            2
        } else {
            1
        },
    }
}

/// How many cells a pane keeps free.
pub fn pane_content_margin(area: Rect) -> (margin: Margin)
    ensures
        margin == pane_margin(area),
{
    Margin {
        horizontal: if area.width >= 70 {
            3
        } else if area.width >= 30 {
            2
        } else {
            1
        },
        vertical: if area.height >= 18 {
            2
        } else {
            1
        },
    }
}

/// What is left of an area within a margin; nothing if the margin takes more than
/// there is.
pub open spec fn within(area: Rect, margin: Margin) -> Rect {
    if area.width < 2 * margin.horizontal || area.height < 2 * margin.vertical {
        Rect { x: 0, y: 0, width: 0, height: 0 }
    } else {
        Rect {
            x: min_int(area.x + margin.horizontal, u16::MAX as int) as u16,
            y: min_int(area.y + margin.vertical, u16::MAX as int) as u16,
            width: (area.width - 2 * margin.horizontal) as u16,
            height: (area.height - 2 * margin.vertical) as u16,
        }
    }
}

fn inner(area: Rect, margin: Margin) -> (inner: Rect)
    requires
        margin.horizontal <= 3,
        margin.vertical <= 3,
    ensures
        inner == within(area, margin),
{
    if area.width < 2 * margin.horizontal || area.height < 2 * margin.vertical {
        Rect { x: 0, y: 0, width: 0, height: 0 }
    } else {
        Rect {
            x: area.x.saturating_add(margin.horizontal),
            y: area.y.saturating_add(margin.vertical),
            width: area.width - 2 * margin.horizontal,
            height: area.height - 2 * margin.vertical,
        }
    }
}

/// Where the list of settings stands in its pane: one row within the border, and
/// as many columns as the margin asks for.
pub fn settings_pane_content_area(area: Rect) -> (content: Rect)
    ensures
        content == within(
            area,
            (Margin { horizontal: pane_margin(area).horizontal, vertical: 1 }),
        ),
{
    let margin = pane_content_margin(area);
    inner(area, Margin { horizontal: margin.horizontal, vertical: 1 })
}

/// Where the details of a setting stand in their pane.
pub fn details_pane_content_area(area: Rect) -> (content: Rect)
    ensures
        content == within(area, (Margin { horizontal: 2, vertical: 1 })),
{
    inner(area, Margin { horizontal: 2, vertical: 1 })
}

// ------------------------------------------------------------------- the list

/// A line of the list.
pub struct SettingLine {
    pub text: String,
    pub is_category: bool,
    pub highlighted: bool,
    pub height: u16,
}

#[verifier::ext_equal]
pub struct SettingLineView {
    pub text: Seq<char>,
    pub is_category: bool,
    pub highlighted: bool,
    pub height: int,
}

impl View for SettingLine {
    type V = SettingLineView;

    open spec fn view(&self) -> SettingLineView {
        SettingLineView {
            text: self.text@,
            is_category: self.is_category,
            highlighted: self.highlighted,
            height: self.height as int,
        }
    }
}

pub open spec fn setting_lines(lines: Seq<SettingLine>) -> Seq<SettingLineView> {
    lines.map_values(|line: SettingLine| line@)
}

pub open spec fn category_text(category: ConfigCategory) -> Seq<char> {
    match category {
        ConfigCategory::Paths => "Paths"@,
        ConfigCategory::Downloads => "Downloads"@,
        ConfigCategory::Network => "Network"@,
        ConfigCategory::Ui => "UI"@,
    }
}

/// A row of the list as a line: a setting has a mark in front if it is the one
/// that is edited, or selected while none is edited, and two rows where space is
/// short.
pub open spec fn setting_line(
    row: ConfigListRow,
    selected: int,
    edited: Option<ConfigItem>,
    compact: bool,
) -> SettingLineView {
    match row {
        ConfigListRow::Category(category) => SettingLineView {
            text: category_text(category),
            is_category: true,
            highlighted: false,
            height: 1,
        },
        ConfigListRow::Setting { global_index, item } => {
            let highlighted = match edited {
                Some(edited) => edited == item,
                None => global_index == selected,
            };
            let mark = if highlighted {
                "▶ "@
            } else {
                "  "@
            };
            SettingLineView {
                text: if compact {
                    mark + label_of(item) + "\n"@
                } else {
                    mark + label_of(item)
                },
                is_category: false,
                highlighted,
                height: if compact {
                    2
                } else {
                    1
                },
            }
        },
    }
}

pub open spec fn edited_item(editing: Option<(ConfigItem, Seq<char>)>) -> Option<ConfigItem> {
    match editing {
        Some((item, _)) => Some(item),
        None => None,
    }
}

/// The lines of the list.
pub fn settings_pane_lines(
    items: &[ConfigItem],
    selected_index: usize,
    editing: &Option<(ConfigItem, String)>,
    layout_kind: ConfigLayoutKind,
) -> (lines: Vec<SettingLine>)
    ensures
        setting_lines(lines@) == rows_of(items@, categories()).map_values(
            |row: ConfigListRow|
                setting_line(
                    row,
                    selected_index as int,
                    edited_item(edit_view(*editing)),
                    layout_kind == ConfigLayoutKind::Compact,
                ),
        ),
{
    let compact = layout_kind == ConfigLayoutKind::Compact;
    let edited: Option<ConfigItem> = match editing {
        Some((item, _)) => Some(*item),
        None => None,
    };
    let rows = config_list_rows(items);
    let ghost f = |row: ConfigListRow|
        setting_line(row, selected_index as int, edited, compact);
    let mut lines: Vec<SettingLine> = Vec::new();
    let mut k: usize = 0;
    assert(setting_lines(lines@) =~= rows@.take(0).map_values(f));
    while k < rows.len()
        invariant
            k <= rows@.len(),
            f == (|row: ConfigListRow| setting_line(row, selected_index as int, edited, compact)),
            setting_lines(lines@) == rows@.take(k as int).map_values(f),
        decreases rows@.len() - k,
    {
        let line = match rows[k] {
            ConfigListRow::Category(category) => SettingLine {
                text: owned(category.label()),
                is_category: true,
                highlighted: false,
                height: 1,
            },
            ConfigListRow::Setting { global_index, item } => {
                let label = descriptor_for_item(item).label;
                let highlighted = match edited {
                    Some(edited) => edited == item,
                    None => global_index == selected_index,
                };
                let mark = if highlighted {
                    "▶ "
                } else {
                    "  "
                };
                SettingLine {
                    text: if compact {
                        join3(mark, label, "\n")
                    } else {
                        join(mark, label)
                    },
                    is_category: false,
                    highlighted,
                    height: if compact {
                        2
                    } else {
                        1
                    },
                }
            },
        };
        let ghost view = line@;
        let ghost was = setting_lines(lines@);
        lines.push(line);
        assert(setting_lines(lines@) =~= was.push(view));
        assert(rows@.take(k + 1).map_values(f) =~= rows@.take(k as int).map_values(f).push(
            f(rows@[k as int]),
        ));
        k = k + 1;
    }
    assert(rows@.take(k as int) =~= rows@);
    assert(f =~= |row: ConfigListRow|
        setting_line(
            row,
            selected_index as int,
            edited_item(edit_view(*editing)),
            layout_kind == ConfigLayoutKind::Compact,
        ));
    lines
}

// ---------------------------------------------------------------- the details

/// Values of settings as text: paths made fit for a terminal, rates with their
/// unit, and the name of the arrangement.
pub struct ConfigTexts {
    pub default_download_folder: String,
    pub watch_folder: String,
    pub ui_layout_mode: String,
    pub global_download_limit: String,
    pub global_upload_limit: String,
    pub shared_settings_path: Option<String>,
}

/// The value of a setting.
pub open spec fn value_text(item: ConfigItem, s: SettingsView, parts: ConfigTexts) -> Seq<char> {
    match item {
        ConfigItem::ClientPort => decimal(s.client_port as nat),
        ConfigItem::DefaultDownloadFolder => parts.default_download_folder@,
        ConfigItem::WatchFolder => parts.watch_folder@,
        ConfigItem::AlwaysShowAddLocationPrompt => if s.always_show_add_location_prompt {
            "Enabled"@
        } else {
            "Disabled"@
        },
        ConfigItem::UiLayoutMode => parts.ui_layout_mode@,
        ConfigItem::GlobalDownloadLimit => parts.global_download_limit@,
        ConfigItem::GlobalUploadLimit => parts.global_upload_limit@,
    }
}

/// The value of a setting.
pub fn value_for_item(item: ConfigItem, settings: &Settings, parts: &ConfigTexts) -> (value: String)
    ensures
        value@ == value_text(item, settings@, *parts),
{
    match item {
        ConfigItem::ClientPort => format_number(settings.client_port as u64),
        ConfigItem::DefaultDownloadFolder => parts.default_download_folder.clone(),
        ConfigItem::WatchFolder => parts.watch_folder.clone(),
        ConfigItem::AlwaysShowAddLocationPrompt => {
            if settings.always_show_add_location_prompt {
                owned("Enabled")
            } else {
                owned("Disabled")
            }
        },
        ConfigItem::UiLayoutMode => parts.ui_layout_mode.clone(),
        ConfigItem::GlobalDownloadLimit => parts.global_download_limit.clone(),
        ConfigItem::GlobalUploadLimit => parts.global_upload_limit.clone(),
    }
}

/// How a setting is changed, in words.
pub open spec fn hint_text(item: ConfigItem, shared_mode: bool) -> Seq<char> {
    match control_of(item) {
        ConfigControlKind::Bool => "Space/Enter toggles. t enables. f disables."@,
        ConfigControlKind::Enum => "←/→ cycles choices. Enter advances to the next choice."@,
        ConfigControlKind::Number => "Enter edits exact numeric value. r resets to default."@,
        ConfigControlKind::RateLimit =>
            "←/→ changes in steps. Enter edits exact bytes/sec. r resets."@,
        ConfigControlKind::Path => if is_shared_path(item, shared_mode) {
            "Managed by shared config. Host-local settings still save here."@
        } else {
            "Enter opens the directory picker. r resets to default."@
        },
    }
}

/// How a setting is changed, in words.
pub fn control_hint(control: ConfigControlKind, item: ConfigItem, shared_mode: bool) -> (hint:
    &'static str)
    ensures
        control == control_of(item) ==> hint@ == hint_text(item, shared_mode),
        control != ConfigControlKind::Path ==> hint@ == match control {
            ConfigControlKind::Bool => "Space/Enter toggles. t enables. f disables."@,
            ConfigControlKind::Enum => "←/→ cycles choices. Enter advances to the next choice."@,
            ConfigControlKind::Number => "Enter edits exact numeric value. r resets to default."@,
            _ => "←/→ changes in steps. Enter edits exact bytes/sec. r resets."@,
        },
        control == ConfigControlKind::Path ==> hint@ == if is_shared_path(item, shared_mode) {
            "Managed by shared config. Host-local settings still save here."@
        } else {
            "Enter opens the directory picker. r resets to default."@
        },
{
    match control {
        ConfigControlKind::Bool => "Space/Enter toggles. t enables. f disables.",
        ConfigControlKind::Enum => "←/→ cycles choices. Enter advances to the next choice.",
        ConfigControlKind::Number => "Enter edits exact numeric value. r resets to default.",
        ConfigControlKind::RateLimit =>
            "←/→ changes in steps. Enter edits exact bytes/sec. r resets.",
        ConfigControlKind::Path => if shared_path_is_manual(item, shared_mode) {
            "Managed by shared config. Host-local settings still save here."
        } else {
            "Enter opens the directory picker. r resets to default."
        },
    }
}

/// What is typed for a setting, if it is the one that is edited.
pub open spec fn typed_for(editing: Option<(ConfigItem, Seq<char>)>, item: ConfigItem) -> Option<
    Seq<char>,
> {
    match editing {
        Some((edited, buffer)) => if edited == item {
            Some(buffer)
        } else {
            None
        },
        None => None,
    }
}

/// The lines of the details of a setting.
pub open spec fn details_text(
    item: ConfigItem,
    s: SettingsView,
    editing: Option<(ConfigItem, Seq<char>)>,
    shared_mode: bool,
    parts: ConfigTexts,
) -> Seq<Seq<char>> {
    let typed = typed_for(editing, item);
    let value = match typed {
        Some(buffer) => seq!["Value: "@ + ("["@ + buffer + "]"@), "Editing: "@ + buffer],
        None => seq!["Value: "@ + value_text(item, s, parts)],
    };
    let notice = if is_shared_path(item, shared_mode) {
        seq![
            Seq::empty(),
            "Shared mode: edit this value in "@ + match parts.shared_settings_path {
                Some(path) => path@,
                None => "settings.toml"@,
            },
        ]
    } else {
        Seq::empty()
    };
    (value + notice).push(Seq::empty()).push(hint_text(item, shared_mode))
}

fn push_blank(lines: &mut Vec<String>)
    ensures
        texts(final(lines)@) == texts(old(lines)@).push(Seq::empty()),
{
    let blank = String::new();
    assert(blank@ =~= Seq::<char>::empty());
    push_text(lines, blank);
}

fn push_text(lines: &mut Vec<String>, line: String)
    ensures
        texts(final(lines)@) == texts(old(lines)@).push(line@),
{
    let ghost was = texts(lines@);
    lines.push(line);
    assert(texts(lines@) =~= was.push(line@));
}

/// The lines of the details of a setting.
pub fn details_pane_lines(
    item: ConfigItem,
    settings: &Settings,
    editing: &Option<(ConfigItem, String)>,
    shared_mode: bool,
    parts: &ConfigTexts,
) -> (lines: Vec<String>)
    ensures
        texts(lines@) == details_text(item, settings@, edit_view(*editing), shared_mode, *parts),
{
    let mut lines: Vec<String> = Vec::new();
    assert(texts(lines@) =~= Seq::<Seq<char>>::empty());
    let typed: Option<&String> = match editing {
        Some((edited, buffer)) => if *edited == item {
            Some(buffer)
        } else {
            None
        },
        None => None,
    };
    match typed {
        Some(buffer) => {
            let value = join3("[", buffer.as_str(), "]");
            push_text(&mut lines, join("Value: ", value.as_str()));
            push_text(&mut lines, join("Editing: ", buffer.as_str()));
        },
        None => {
            let value = value_for_item(item, settings, parts);
            push_text(&mut lines, join("Value: ", value.as_str()));
        },
    }
    if shared_path_is_manual(item, shared_mode) {
        push_blank(&mut lines);
        let path = match &parts.shared_settings_path {
            Some(path) => path.as_str(),
            None => "settings.toml",
        };
        push_text(&mut lines, join("Shared mode: edit this value in ", path));
    }
    push_blank(&mut lines);
    push_text(
        &mut lines,
        owned(control_hint(descriptor_for_item(item).control, item, shared_mode)),
    );
    assert(texts(lines@) =~= details_text(
        item,
        settings@,
        edit_view(*editing),
        shared_mode,
        *parts,
    ));
    lines
}

/// Where the cursor stands while a number of so many digits is typed: behind the
/// last digit, but within the pane. Columns are counted in sixteen bits.
pub fn details_cursor(area: Rect, typed: usize) -> (cursor: (u16, u16))
    requires
        area.valid(),
    ensures
        cursor.0 == min_int(
            area.x + 8 + typed % 65536,
            area.x + monus(area.width as int, 1),
        ),
        cursor.1 == min_int(area.y + 1, u16::MAX as int),
{
    let last: u16 = area.x + area.width.saturating_sub(1);
    let digits: u16 = (typed % 65536) as u16;
    let behind: u16 = area.x.saturating_add(8).saturating_add(digits);
    let column: u16 = if behind <= last {
        behind
    } else {
        last
    };
    (column, area.y.saturating_add(1))
}

// ----------------------------------------------------------------- the footer

/// The keys of the footer, each with the words behind it.
pub open spec fn config_footer_keys(editing: bool, pane: ConfigPane) -> Seq<HintView> {
    if editing {
        seq![
            hint("[Enter]"@, " to confirm, "@, ActionTone::Confirm),
            hint("[Esc]"@, " to cancel."@, ActionTone::Cancel),
        ]
    } else if pane == ConfigPane::Settings {
        seq![
            hint("↑/↓/k/j"@, " select, "@, ActionTone::Navigate),
            hint("[Enter]|[Tab]"@, " controls, "@, ActionTone::Navigate),
            hint("[Esc]|[Q]"@, " Save & Exit."@, ActionTone::Confirm),
        ]
    } else {
        seq![
            hint("[Tab]"@, " settings, "@, ActionTone::Navigate),
            hint("[Enter]"@, " edit/open, "@, ActionTone::Edit),
            hint("←/→"@, " adjust, "@, ActionTone::Toggle),
            hint("[r]"@, "eset, "@, ActionTone::Clear),
            hint("[Esc]|[Q]"@, " Save & Exit."@, ActionTone::Confirm),
        ]
    }
}

/// The keys of the footer, each with the words behind it.
pub fn config_footer(editing: &Option<(ConfigItem, String)>, active_pane: ConfigPane) -> (hints: Vec<
    KeyHint,
>)
    ensures
        hint_views(hints@) == config_footer_keys(editing is Some, active_pane),
{
    let mut hints: Vec<KeyHint> = Vec::new();
    assert(hint_views(hints@) =~= Seq::<HintView>::empty());
    if editing.is_some() {
        push_hint(&mut hints, "[Enter]", " to confirm, ", ActionTone::Confirm);
        push_hint(&mut hints, "[Esc]", " to cancel.", ActionTone::Cancel);
    } else if active_pane == ConfigPane::Settings {
        push_hint(&mut hints, "↑/↓/k/j", " select, ", ActionTone::Navigate);
        push_hint(&mut hints, "[Enter]|[Tab]", " controls, ", ActionTone::Navigate);
        push_hint(&mut hints, "[Esc]|[Q]", " Save & Exit.", ActionTone::Confirm);
    } else {
        push_hint(&mut hints, "[Tab]", " settings, ", ActionTone::Navigate);
        push_hint(&mut hints, "[Enter]", " edit/open, ", ActionTone::Edit);
        push_hint(&mut hints, "←/→", " adjust, ", ActionTone::Toggle);
        push_hint(&mut hints, "[r]", "eset, ", ActionTone::Clear);
        push_hint(&mut hints, "[Esc]|[Q]", " Save & Exit.", ActionTone::Confirm);
    }
    assert(hint_views(hints@) =~= config_footer_keys(editing is Some, active_pane));
    hints
}

} // verus!
