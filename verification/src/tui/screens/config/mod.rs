//! The settings screen: what its keys mean and what they change.
use crate::app::{text_view, AppMode};
use crate::config::{
    copy_text, initial_settings, next_layout_mode, previous_layout_mode, Settings, SettingsView,
    UNLIMITED_RATE_LIMIT_BPS,
};
use crate::keys::{KeyCode, KeyEventKind, TerminalEvent};
use crate::text::{is_digit, number_in, owned, parse_number, without_last};
use crate::tui::screens::config::list::{
    moving_stays_on_a_setting_and_can_be_undone, next_visible_setting_index,
    previous_visible_setting_index, setting_above, setting_below, ConfigItem,
};
use vstd::prelude::*;

pub mod laws;
pub mod list;
pub mod panes;


verus! {

/// How far the arrow keys move a rate, in bits per second.
pub const RATE_LIMIT_STEP_BPS: u64 = 80_000;

/// What a key can ask of the screen.
#[derive(Clone, Copy, Debug, PartialEq, Eq, Structural)]
pub enum ConfigAction {
    SaveAndExit,
    StartEditOrBrowse,
    ToggleSelectedBool,
    SetSelectedBool(bool),
    MoveUp,
    MoveDown,
    ToggleFocus,
    ResetSelected,
    IncreaseSelected,
    DecreaseSelected,
    EditInsert(char),
    EditBackspace,
    EditCancel,
    EditCommit,
}

/// A command to the program: to take over settings, or to show a directory in the
/// picker for a path setting, from which one comes back to the screen as it is.
#[derive(Debug, PartialEq, Eq)]
pub enum ConfigCommand {
    UpdateConfig(Settings),
    FetchFileTree {
        browser_generation: u64,
        path: String,
        target_item: ConfigItem,
        current_settings: Settings,
        selected_index: usize,
        items: Vec<ConfigItem>,
    },
}

/// What the screen asks of the program.
#[derive(Debug, PartialEq, Eq)]
pub enum ConfigEffect {
    AppCommand(Box<ConfigCommand>),
    SetDownloadRate(u64),
    SetUploadRate(u64),
    ToNormal,
}

#[verifier::ext_equal]
pub enum ConfigEffectView {
    UpdateConfig(SettingsView),
    FetchFileTree {
        browser_generation: u64,
        path: Seq<char>,
        target_item: ConfigItem,
        current_settings: SettingsView,
        selected_index: int,
        items: Seq<ConfigItem>,
    },
    SetDownloadRate(u64),
    SetUploadRate(u64),
    ToNormal,
}

impl View for ConfigEffect {
    type V = ConfigEffectView;

    open spec fn view(&self) -> ConfigEffectView {
        match *self {
            ConfigEffect::AppCommand(command) => match *command {
                ConfigCommand::UpdateConfig(settings) => ConfigEffectView::UpdateConfig(settings@),
                ConfigCommand::FetchFileTree {
                    browser_generation,
                    path,
                    target_item,
                    current_settings,
                    selected_index,
                    items,
                } => ConfigEffectView::FetchFileTree {
                    browser_generation,
                    path: path@,
                    target_item,
                    current_settings: current_settings@,
                    selected_index: selected_index as int,
                    items: items@,
                },
            },
            ConfigEffect::SetDownloadRate(rate) => ConfigEffectView::SetDownloadRate(rate),
            ConfigEffect::SetUploadRate(rate) => ConfigEffectView::SetUploadRate(rate),
            ConfigEffect::ToNormal => ConfigEffectView::ToNormal,
        }
    }
}

pub open spec fn config_effects(effects: Seq<ConfigEffect>) -> Seq<ConfigEffectView> {
    effects.map_values(|effect: ConfigEffect| effect@)
}

pub struct ConfigReduceResult {
    pub consumed: bool,
    pub effects: Vec<ConfigEffect>,
}

impl Default for ConfigReduceResult {
    fn default() -> (result: ConfigReduceResult)
        ensures
            !result.consumed,
            result.effects@.len() == 0,
    {
        ConfigReduceResult { consumed: false, effects: Vec::new() }
    }
}

/// Which half of the screen takes the keys.
#[derive(Clone, Copy, Debug, PartialEq, Eq, Structural)]
pub enum ConfigPane {
    Settings,
    Details,
}

pub open spec fn other_pane(pane: ConfigPane) -> ConfigPane {
    match pane {
        ConfigPane::Settings => ConfigPane::Details,
        ConfigPane::Details => ConfigPane::Settings,
    }
}

/// Hands the keys to the other half of the screen.
pub fn toggle_config_pane(active_pane: &mut ConfigPane)
    ensures
        *final(active_pane) == other_pane(*old(active_pane)),
{
    *active_pane =
    match *active_pane {
        ConfigPane::Settings => ConfigPane::Details,
        ConfigPane::Details => ConfigPane::Settings,
    };
}

/// The state that an action works on.
#[verifier::ext_equal]
pub struct ConfigModel {
    pub settings: SettingsView,
    pub selected: int,
    pub editing: Option<(ConfigItem, Seq<char>)>,
}

pub open spec fn edit_view(editing: Option<(ConfigItem, String)>) -> Option<
    (ConfigItem, Seq<char>),
> {
    match editing {
        Some((item, buffer)) => Some((item, buffer@)),
        None => None,
    }
}

pub open spec fn config_model(
    settings: Settings,
    selected: usize,
    editing: Option<(ConfigItem, String)>,
) -> ConfigModel {
    ConfigModel { settings: settings@, selected: selected as int, editing: edit_view(editing) }
}

// ----------------------------------------------------------------- the rates

/// A rate one step up. No rate at all is followed by no limit, and no limit by the
/// lowest one.
pub open spec fn rate_up(current: int) -> int {
    if current == 0 {
        UNLIMITED_RATE_LIMIT_BPS as int
    } else if current == UNLIMITED_RATE_LIMIT_BPS {
        RATE_LIMIT_STEP_BPS as int
    } else if current + RATE_LIMIT_STEP_BPS > u64::MAX {
        u64::MAX as int
    } else {
        current + RATE_LIMIT_STEP_BPS
    }
}

/// A rate one step down. Below the lowest one there is no limit, and below that no
/// rate at all.
pub open spec fn rate_down(current: int) -> int {
    if current == 0 || current == UNLIMITED_RATE_LIMIT_BPS {
        0
    } else if current <= RATE_LIMIT_STEP_BPS {
        UNLIMITED_RATE_LIMIT_BPS as int
    } else {
        current - RATE_LIMIT_STEP_BPS
    }
}

pub fn increase_rate_limit_bps(current: u64) -> (rate: u64)
    ensures
        rate == rate_up(current as int),
{
    if current == 0 {
        UNLIMITED_RATE_LIMIT_BPS
    } else if current == UNLIMITED_RATE_LIMIT_BPS {
        RATE_LIMIT_STEP_BPS
    } else {
        current.saturating_add(RATE_LIMIT_STEP_BPS)
    }
}

pub fn decrease_rate_limit_bps(current: u64) -> (rate: u64)
    ensures
        rate == rate_down(current as int),
{
    if current == 0 || current == UNLIMITED_RATE_LIMIT_BPS {
        0
    } else if current <= RATE_LIMIT_STEP_BPS {
        UNLIMITED_RATE_LIMIT_BPS
    } else {
        current - RATE_LIMIT_STEP_BPS
    }
}

/// A step down undoes a step up, but for rates so high that the step would reach
/// the end of the range.
pub proof fn a_step_down_undoes_a_step_up(rate: int)
    requires
        0 <= rate,
        rate == UNLIMITED_RATE_LIMIT_BPS || rate + RATE_LIMIT_STEP_BPS < UNLIMITED_RATE_LIMIT_BPS,
    ensures
        rate_down(rate_up(rate)) == rate,
{
}

// ------------------------------------------------------------------ the keys

/// What a key means: while a number is typed only digits and the keys that end it.
pub open spec fn config_key(key: KeyCode, editing: bool) -> Option<ConfigAction> {
    if editing {
        match key {
            KeyCode::Char(c) => if is_digit(c) {
                Some(ConfigAction::EditInsert(c))
            } else {
                None
            },
            KeyCode::Backspace => Some(ConfigAction::EditBackspace),
            KeyCode::Esc => Some(ConfigAction::EditCancel),
            KeyCode::Enter => Some(ConfigAction::EditCommit),
            _ => None,
        }
    } else {
        match key {
            KeyCode::Esc | KeyCode::Char('Q') => Some(ConfigAction::SaveAndExit),
            KeyCode::Enter => Some(ConfigAction::StartEditOrBrowse),
            KeyCode::Char(' ') => Some(ConfigAction::ToggleSelectedBool),
            KeyCode::Char('t') => Some(ConfigAction::SetSelectedBool(true)),
            KeyCode::Char('f') => Some(ConfigAction::SetSelectedBool(false)),
            KeyCode::Up | KeyCode::Char('k') => Some(ConfigAction::MoveUp),
            KeyCode::Down | KeyCode::Char('j') => Some(ConfigAction::MoveDown),
            KeyCode::Tab | KeyCode::BackTab => Some(ConfigAction::ToggleFocus),
            KeyCode::Char('r') => Some(ConfigAction::ResetSelected),
            KeyCode::Right | KeyCode::Char('l') => Some(ConfigAction::IncreaseSelected),
            KeyCode::Left | KeyCode::Char('h') => Some(ConfigAction::DecreaseSelected),
            _ => None,
        }
    }
}

/// What a key means.
pub fn map_key_to_config_action(key_code: KeyCode, editing: &Option<(ConfigItem, String)>) -> (action:
    Option<ConfigAction>)
    ensures
        action == config_key(key_code, editing is Some),
{
    if editing.is_some() {
        return match key_code {
            KeyCode::Char(c) => if '0' <= c && c <= '9' {
                Some(ConfigAction::EditInsert(c))
            } else {
                None
            },
            KeyCode::Backspace => Some(ConfigAction::EditBackspace),
            KeyCode::Esc => Some(ConfigAction::EditCancel),
            KeyCode::Enter => Some(ConfigAction::EditCommit),
            _ => None,
        };
    }
    match key_code {
        KeyCode::Esc | KeyCode::Char('Q') => Some(ConfigAction::SaveAndExit),
        KeyCode::Enter => Some(ConfigAction::StartEditOrBrowse),
        KeyCode::Char(' ') => Some(ConfigAction::ToggleSelectedBool),
        KeyCode::Char('t') => Some(ConfigAction::SetSelectedBool(true)),
        KeyCode::Char('f') => Some(ConfigAction::SetSelectedBool(false)),
        KeyCode::Up | KeyCode::Char('k') => Some(ConfigAction::MoveUp),
        KeyCode::Down | KeyCode::Char('j') => Some(ConfigAction::MoveDown),
        KeyCode::Tab | KeyCode::BackTab => Some(ConfigAction::ToggleFocus),
        KeyCode::Char('r') => Some(ConfigAction::ResetSelected),
        KeyCode::Right | KeyCode::Char('l') => Some(ConfigAction::IncreaseSelected),
        KeyCode::Left | KeyCode::Char('h') => Some(ConfigAction::DecreaseSelected),
        _ => None,
    }
}

// --------------------------------------------------------------- the reducer

/// Whether an action is about the selected setting.
pub open spec fn acts_on_selection(action: ConfigAction) -> bool {
    match action {
        ConfigAction::StartEditOrBrowse | ConfigAction::ToggleSelectedBool
        | ConfigAction::SetSelectedBool(_) | ConfigAction::ResetSelected
        | ConfigAction::IncreaseSelected | ConfigAction::DecreaseSelected => true,
        _ => false,
    }
}

/// Whether a path is set for all hosts together, outside this screen.
pub open spec fn is_shared_path(item: ConfigItem, shared_mode: bool) -> bool {
    shared_mode && item == ConfigItem::DefaultDownloadFolder
}

/// Whether a path is set for all hosts together, outside this screen.
pub fn shared_path_is_manual(item: ConfigItem, shared_mode: bool) -> (manual: bool)
    ensures
        manual == is_shared_path(item, shared_mode),
{
    shared_mode && item == ConfigItem::DefaultDownloadFolder
}

/// The settings with one of them put back to what it was initially.
pub open spec fn reset_setting(s: SettingsView, item: ConfigItem, shared_mode: bool) -> SettingsView {
    let first = initial_settings();
    match item {
        ConfigItem::ClientPort => SettingsView { client_port: first.client_port, ..s },
        ConfigItem::DefaultDownloadFolder => if shared_mode {
            s
        } else {
            SettingsView { default_download_folder: first.default_download_folder, ..s }
        },
        ConfigItem::WatchFolder => SettingsView { watch_folder: first.watch_folder, ..s },
        ConfigItem::AlwaysShowAddLocationPrompt => SettingsView {
            always_show_add_location_prompt: first.always_show_add_location_prompt,
            ..s
        },
        ConfigItem::UiLayoutMode => SettingsView { ui_layout_mode: first.ui_layout_mode, ..s },
        ConfigItem::GlobalDownloadLimit => SettingsView {
            global_download_limit_bps: first.global_download_limit_bps,
            ..s
        },
        ConfigItem::GlobalUploadLimit => SettingsView {
            global_upload_limit_bps: first.global_upload_limit_bps,
            ..s
        },
    }
}

/// The settings with one of them moved up or down.
pub open spec fn stepped_setting(s: SettingsView, item: ConfigItem, up: bool) -> SettingsView {
    match item {
        ConfigItem::GlobalDownloadLimit => SettingsView {
            global_download_limit_bps: if up {
                rate_up(s.global_download_limit_bps as int) as u64
            } else {
                rate_down(s.global_download_limit_bps as int) as u64
            },
            ..s
        },
        ConfigItem::GlobalUploadLimit => SettingsView {
            global_upload_limit_bps: if up {
                rate_up(s.global_upload_limit_bps as int) as u64
            } else {
                rate_down(s.global_upload_limit_bps as int) as u64
            },
            ..s
        },
        ConfigItem::UiLayoutMode => SettingsView {
            ui_layout_mode: if up {
                next_layout_mode(s.ui_layout_mode)
            } else {
                previous_layout_mode(s.ui_layout_mode)
            },
            ..s
        },
        _ => s,
    }
}

/// Whether a typed number is one that the setting can have. What is not typed is
/// always accepted.
pub open spec fn is_committable(item: ConfigItem, buffer: Seq<char>) -> bool {
    match item {
        ConfigItem::ClientPort => number_in(buffer) matches Some(n) && 0 < n <= u16::MAX,
        ConfigItem::GlobalDownloadLimit
        | ConfigItem::GlobalUploadLimit => number_in(buffer) matches Some(n) && n <= u64::MAX,
        _ => true,
    }
}

/// The settings with a typed number in its place.
pub open spec fn committed_setting(s: SettingsView, item: ConfigItem, buffer: Seq<char>) -> SettingsView {
    match item {
        ConfigItem::ClientPort => SettingsView { client_port: number_in(buffer)->0 as u16, ..s },
        ConfigItem::GlobalDownloadLimit => SettingsView {
            global_download_limit_bps: number_in(buffer)->0 as u64,
            ..s
        },
        ConfigItem::GlobalUploadLimit => SettingsView {
            global_upload_limit_bps: number_in(buffer)->0 as u64,
            ..s
        },
        _ => s,
    }
}

/// The state after an action.
pub open spec fn config_reduced(
    m: ConfigModel,
    action: ConfigAction,
    items: Seq<ConfigItem>,
    shared_mode: bool,
) -> ConfigModel {
    let s = m.settings;
    let item = items[m.selected];
    let prompt = item == ConfigItem::AlwaysShowAddLocationPrompt;
    match action {
        ConfigAction::SaveAndExit | ConfigAction::ToggleFocus => m,
        ConfigAction::StartEditOrBrowse => match item {
            ConfigItem::GlobalDownloadLimit | ConfigItem::GlobalUploadLimit
            | ConfigItem::ClientPort => ConfigModel { editing: Some((item, Seq::empty())), ..m },
            ConfigItem::AlwaysShowAddLocationPrompt => ConfigModel {
                settings: SettingsView {
                    always_show_add_location_prompt: !s.always_show_add_location_prompt,
                    ..s
                },
                ..m
            },
            ConfigItem::UiLayoutMode => ConfigModel {
                settings: stepped_setting(s, item, true),
                ..m
            },
            ConfigItem::DefaultDownloadFolder | ConfigItem::WatchFolder => m,
        },
        ConfigAction::ToggleSelectedBool => if prompt {
            ConfigModel {
                settings: SettingsView {
                    always_show_add_location_prompt: !s.always_show_add_location_prompt,
                    ..s
                },
                ..m
            }
        } else {
            m
        },
        ConfigAction::SetSelectedBool(value) => if prompt {
            ConfigModel {
                settings: SettingsView { always_show_add_location_prompt: value, ..s },
                ..m
            }
        } else {
            m
        },
        ConfigAction::MoveUp => ConfigModel { selected: setting_above(items, m.selected), ..m },
        ConfigAction::MoveDown => ConfigModel { selected: setting_below(items, m.selected), ..m },
        ConfigAction::ResetSelected => ConfigModel {
            settings: reset_setting(s, item, shared_mode),
            ..m
        },
        ConfigAction::IncreaseSelected => ConfigModel {
            settings: stepped_setting(s, item, true),
            ..m
        },
        ConfigAction::DecreaseSelected => ConfigModel {
            settings: stepped_setting(s, item, false),
            ..m
        },
        ConfigAction::EditInsert(c) => ConfigModel {
            editing: match m.editing {
                Some((item, buffer)) => Some((item, buffer.push(c))),
                None => None,
            },
            ..m
        },
        ConfigAction::EditBackspace => ConfigModel {
            editing: match m.editing {
                Some((item, buffer)) => Some((item, without_last(buffer))),
                None => None,
            },
            ..m
        },
        ConfigAction::EditCancel => ConfigModel { editing: None, ..m },
        ConfigAction::EditCommit => match m.editing {
            Some((item, buffer)) => if is_committable(item, buffer) {
                ConfigModel { settings: committed_setting(s, item, buffer), editing: None, ..m }
            } else {
                m
            },
            None => m,
        },
    }
}

/// The rate that a setting stands for, as an effect.
pub open spec fn rate_effect(s: SettingsView, item: ConfigItem) -> Seq<ConfigEffectView> {
    match item {
        ConfigItem::GlobalDownloadLimit => seq![
            ConfigEffectView::SetDownloadRate(s.global_download_limit_bps),
        ],
        ConfigItem::GlobalUploadLimit => seq![
            ConfigEffectView::SetUploadRate(s.global_upload_limit_bps),
        ],
        _ => Seq::empty(),
    }
}

/// Where the picker for a path starts: at the path, or else in the user's download
/// directory, or else in the current one.
pub open spec fn first_path(
    s: SettingsView,
    item: ConfigItem,
    download_dir: Option<Seq<char>>,
) -> Seq<char> {
    let set = if item == ConfigItem::WatchFolder {
        s.watch_folder
    } else {
        s.default_download_folder
    };
    match (set, download_dir) {
        (Some(path), _) => path,
        (None, Some(path)) => path,
        (None, None) => "."@,
    }
}

/// What an action asks of the program.
pub open spec fn config_asked(
    m: ConfigModel,
    action: ConfigAction,
    items: Seq<ConfigItem>,
    shared_mode: bool,
    download_dir: Option<Seq<char>>,
) -> Seq<ConfigEffectView> {
    let after = config_reduced(m, action, items, shared_mode).settings;
    let item = items[m.selected];
    match action {
        ConfigAction::SaveAndExit => seq![
            ConfigEffectView::UpdateConfig(m.settings),
            ConfigEffectView::ToNormal,
        ],
        ConfigAction::StartEditOrBrowse => if (item == ConfigItem::DefaultDownloadFolder || item
            == ConfigItem::WatchFolder) && !is_shared_path(item, shared_mode) {
            seq![
                ConfigEffectView::FetchFileTree {
                    browser_generation: 0,
                    path: first_path(m.settings, item, download_dir),
                    target_item: item,
                    current_settings: m.settings,
                    selected_index: m.selected,
                    items,
                },
            ]
        } else {
            Seq::empty()
        },
        ConfigAction::IncreaseSelected | ConfigAction::DecreaseSelected => rate_effect(after, item),
        ConfigAction::EditCommit => match m.editing {
            Some((item, buffer)) => if is_committable(item, buffer) {
                rate_effect(after, item)
            } else {
                Seq::empty()
            },
            None => Seq::empty(),
        },
        _ => Seq::empty(),
    }
}

fn push_config_effect(effects: &mut Vec<ConfigEffect>, effect: ConfigEffect)
    ensures
        config_effects(final(effects)@) == config_effects(old(effects)@).push(effect@),
{
    let ghost was = config_effects(effects@);
    let ghost view = effect@;
    effects.push(effect);
    assert(config_effects(effects@) =~= was.push(view));
}

fn copy_items(items: &[ConfigItem]) -> (copy: Vec<ConfigItem>)
    ensures
        copy@ == items@,
{
    let mut copy: Vec<ConfigItem> = Vec::new();
    let mut k: usize = 0;
    while k < items.len()
        invariant
            k <= items@.len(),
            copy@ == items@.take(k as int),
        decreases items@.len() - k,
    {
        copy.push(items[k]);
        k = k + 1;
        assert(copy@ =~= items@.take(k as int));
    }
    assert(items@.take(k as int) =~= items@);
    copy
}

fn start_edit_or_browse(
    settings_edit: &mut Settings,
    selected_index: usize,
    items: &[ConfigItem],
    editing: &mut Option<(ConfigItem, String)>,
    shared_mode: bool,
    download_dir: Option<String>,
) -> (effects: Vec<ConfigEffect>)
    requires
        selected_index < items@.len(),
    ensures
        ({
            let m = config_model(*old(settings_edit), selected_index, *old(editing));
            &&& config_model(*final(settings_edit), selected_index, *final(editing))
                == config_reduced(m, ConfigAction::StartEditOrBrowse, items@, shared_mode)
            &&& config_effects(effects@) == config_asked(
                m,
                ConfigAction::StartEditOrBrowse,
                items@,
                shared_mode,
                text_view(download_dir),
            )
        }),
{
    let ghost m = config_model(*settings_edit, selected_index, *editing);
    let mut effects: Vec<ConfigEffect> = Vec::new();
    assert(config_effects(effects@) =~= Seq::<ConfigEffectView>::empty());
    let item = items[selected_index];
    match item {
        ConfigItem::GlobalDownloadLimit | ConfigItem::GlobalUploadLimit
        | ConfigItem::ClientPort => {
            let buffer = String::new();
            assert(buffer@ =~= Seq::<char>::empty());
            *editing = Some((item, buffer));
        },
        ConfigItem::AlwaysShowAddLocationPrompt => {
            settings_edit.always_show_add_location_prompt =
            !settings_edit.always_show_add_location_prompt;
        },
        ConfigItem::UiLayoutMode => {
            settings_edit.ui_layout_mode = settings_edit.ui_layout_mode.next();
        },
        ConfigItem::DefaultDownloadFolder | ConfigItem::WatchFolder => {
            if shared_path_is_manual(item, shared_mode) {
                return effects;
            }
            let set = if item == ConfigItem::WatchFolder {
                copy_text(&settings_edit.watch_folder)
            } else {
                copy_text(&settings_edit.default_download_folder)
            };
            let path = match (set, download_dir) {
                (Some(path), _) => path,
                (None, Some(path)) => path,
                (None, None) => owned("."),
            };
            let command = ConfigCommand::FetchFileTree {
                browser_generation: 0,
                path,
                target_item: item,
                current_settings: settings_edit.copy(),
                selected_index,
                items: copy_items(items),
            };
            push_config_effect(&mut effects, ConfigEffect::AppCommand(Box::new(command)));
        },
    }
    assert(config_effects(effects@) =~= config_asked(
        m,
        ConfigAction::StartEditOrBrowse,
        items@,
        shared_mode,
        text_view(download_dir),
    ));
    effects
}

fn reset_selected(settings_edit: &mut Settings, item: ConfigItem, shared_mode: bool)
    ensures
        final(settings_edit)@ == reset_setting(old(settings_edit)@, item, shared_mode),
{
    let first = Settings::default();
    match item {
        ConfigItem::ClientPort => {
            settings_edit.client_port = first.client_port;
        },
        ConfigItem::DefaultDownloadFolder => {
            if !shared_path_is_manual(item, shared_mode) {
                settings_edit.default_download_folder = first.default_download_folder;
            }
        },
        ConfigItem::WatchFolder => {
            settings_edit.watch_folder = first.watch_folder;
        },
        ConfigItem::AlwaysShowAddLocationPrompt => {
            settings_edit.always_show_add_location_prompt = first.always_show_add_location_prompt;
        },
        ConfigItem::UiLayoutMode => {
            settings_edit.ui_layout_mode = first.ui_layout_mode;
        },
        ConfigItem::GlobalDownloadLimit => {
            settings_edit.global_download_limit_bps = first.global_download_limit_bps;
        },
        ConfigItem::GlobalUploadLimit => {
            settings_edit.global_upload_limit_bps = first.global_upload_limit_bps;
        },
    }
}

fn step_selected(settings_edit: &mut Settings, item: ConfigItem, up: bool) -> (effects: Vec<
    ConfigEffect,
>)
    ensures
        final(settings_edit)@ == stepped_setting(old(settings_edit)@, item, up),
        config_effects(effects@) == rate_effect(final(settings_edit)@, item),
{
    let mut effects: Vec<ConfigEffect> = Vec::new();
    assert(config_effects(effects@) =~= Seq::<ConfigEffectView>::empty());
    match item {
        ConfigItem::GlobalDownloadLimit => {
            let current = settings_edit.global_download_limit_bps;
            let rate = if up {
                increase_rate_limit_bps(current)
            } else {
                decrease_rate_limit_bps(current)
            };
            settings_edit.global_download_limit_bps = rate;
            push_config_effect(&mut effects, ConfigEffect::SetDownloadRate(rate));
        },
        ConfigItem::GlobalUploadLimit => {
            let current = settings_edit.global_upload_limit_bps;
            let rate = if up {
                increase_rate_limit_bps(current)
            } else {
                decrease_rate_limit_bps(current)
            };
            settings_edit.global_upload_limit_bps = rate;
            push_config_effect(&mut effects, ConfigEffect::SetUploadRate(rate));
        },
        ConfigItem::UiLayoutMode => {
            settings_edit.ui_layout_mode = if up {
                settings_edit.ui_layout_mode.next()
            } else {
                settings_edit.ui_layout_mode.previous()
            };
        },
        _ => {},
    }
    assert(config_effects(effects@) =~= rate_effect(settings_edit@, item));
    effects
}

fn commit_edit(settings_edit: &mut Settings, item: ConfigItem, buffer: &str) -> (outcome: (
    bool,
    Vec<ConfigEffect>,
))
    ensures
        outcome.0 == is_committable(item, buffer@),
        final(settings_edit)@ == if is_committable(item, buffer@) {
            committed_setting(old(settings_edit)@, item, buffer@)
        } else {
            old(settings_edit)@
        },
        config_effects(outcome.1@) == if is_committable(item, buffer@) {
            rate_effect(final(settings_edit)@, item)
        } else {
            Seq::empty()
        },
{
    let mut effects: Vec<ConfigEffect> = Vec::new();
    assert(config_effects(effects@) =~= Seq::<ConfigEffectView>::empty());
    match item {
        ConfigItem::ClientPort => {
            match parse_number(buffer, u16::MAX as u64) {
                Some(port) => {
                    if port == 0 {
                        return (false, effects);
                    }
                    settings_edit.client_port = port as u16;
                },
                None => {
                    return (false, effects);
                },
            }
        },
        ConfigItem::GlobalDownloadLimit => {
            match parse_number(buffer, u64::MAX) {
                Some(rate) => {
                    settings_edit.global_download_limit_bps = rate;
                    push_config_effect(&mut effects, ConfigEffect::SetDownloadRate(rate));
                },
                None => {
                    return (false, effects);
                },
            }
        },
        ConfigItem::GlobalUploadLimit => {
            match parse_number(buffer, u64::MAX) {
                Some(rate) => {
                    settings_edit.global_upload_limit_bps = rate;
                    push_config_effect(&mut effects, ConfigEffect::SetUploadRate(rate));
                },
                None => {
                    return (false, effects);
                },
            }
        },
        _ => {},
    }
    assert(config_effects(effects@) =~= rate_effect(settings_edit@, item));
    (true, effects)
}

/// Moves the screen on by one action, on a machine whose user has the given
/// download directory.
pub fn reduce_config_action_from(
    action: ConfigAction,
    settings_edit: &mut Settings,
    selected_index: &mut usize,
    items: &[ConfigItem],
    editing: &mut Option<(ConfigItem, String)>,
    shared_mode: bool,
    download_dir: Option<String>,
) -> (result: ConfigReduceResult)
    requires
        acts_on_selection(action) ==> *old(selected_index) < items@.len(),
    ensures
        ({
            let m = config_model(*old(settings_edit), *old(selected_index), *old(editing));
            &&& result.consumed
            &&& config_model(*final(settings_edit), *final(selected_index), *final(editing))
                == config_reduced(m, action, items@, shared_mode)
            &&& config_effects(result.effects@) == config_asked(
                m,
                action,
                items@,
                shared_mode,
                text_view(download_dir),
            )
        }),
{
    let ghost m = config_model(*settings_edit, *selected_index, *editing);
    let mut effects: Vec<ConfigEffect> = Vec::new();
    assert(config_effects(effects@) =~= Seq::<ConfigEffectView>::empty());
    match action {
        ConfigAction::SaveAndExit => {
            let command = ConfigCommand::UpdateConfig(settings_edit.copy());
            push_config_effect(&mut effects, ConfigEffect::AppCommand(Box::new(command)));
            push_config_effect(&mut effects, ConfigEffect::ToNormal);
            assert(config_effects(effects@) =~= config_asked(
                m,
                action,
                items@,
                shared_mode,
                text_view(download_dir),
            ));
        },
        ConfigAction::StartEditOrBrowse => {
            effects =
            start_edit_or_browse(
                settings_edit,
                *selected_index,
                items,
                editing,
                shared_mode,
                download_dir,
            );
        },
        ConfigAction::ToggleSelectedBool => {
            if items[*selected_index] == ConfigItem::AlwaysShowAddLocationPrompt {
                settings_edit.always_show_add_location_prompt =
                !settings_edit.always_show_add_location_prompt;
            }
        },
        ConfigAction::SetSelectedBool(value) => {
            if items[*selected_index] == ConfigItem::AlwaysShowAddLocationPrompt {
                settings_edit.always_show_add_location_prompt = value;
            }
        },
        ConfigAction::MoveUp => {
            *selected_index = previous_visible_setting_index(items, *selected_index);
        },
        ConfigAction::MoveDown => {
            *selected_index = next_visible_setting_index(items, *selected_index);
        },
        ConfigAction::ToggleFocus => {},
        ConfigAction::ResetSelected => {
            reset_selected(settings_edit, items[*selected_index], shared_mode);
        },
        ConfigAction::IncreaseSelected => {
            effects = step_selected(settings_edit, items[*selected_index], true);
        },
        ConfigAction::DecreaseSelected => {
            effects = step_selected(settings_edit, items[*selected_index], false);
        },
        ConfigAction::EditInsert(c) => {
            if let Some((item, buffer)) = editing.take() {
                let mut buffer = buffer;
                buffer.push(c);
                *editing = Some((item, buffer));
            }
        },
        ConfigAction::EditBackspace => {
            if let Some((item, buffer)) = editing.take() {
                let mut buffer = buffer;
                let _ = buffer.pop();
                *editing = Some((item, buffer));
            }
        },
        ConfigAction::EditCancel => {
            *editing = None;
        },
        ConfigAction::EditCommit => {
            if let Some((item, buffer)) = editing.take() {
                let (committed, asked) = commit_edit(settings_edit, item, buffer.as_str());
                effects = asked;
                if !committed {
                    *editing = Some((item, buffer));
                }
            }
        },
    }
    ConfigReduceResult { consumed: true, effects }
}

/// The user's download directory: `UserDirs::new` of the crate `directories`, and
/// the `download_dir` of what it finds, as text. Both go by the machine's
/// environment, so nothing is claimed of it.
#[verifier::external_body]
fn user_download_dir() -> (path: Option<String>) {
    directories::UserDirs::new().and_then(
        |dirs| dirs.download_dir().map(|path| path.to_string_lossy().into_owned()),
    )
}

/// Moves the screen on by one action.
pub fn reduce_config_action(
    action: ConfigAction,
    settings_edit: &mut Settings,
    selected_index: &mut usize,
    items: &[ConfigItem],
    editing: &mut Option<(ConfigItem, String)>,
    shared_mode: bool,
) -> (result: ConfigReduceResult)
    requires
        acts_on_selection(action) ==> *old(selected_index) < items@.len(),
    ensures
        ({
            let m = config_model(*old(settings_edit), *old(selected_index), *old(editing));
            &&& result.consumed
            &&& config_model(*final(settings_edit), *final(selected_index), *final(editing))
                == config_reduced(m, action, items@, shared_mode)
            &&& exists|download_dir: Option<Seq<char>>|
                config_effects(result.effects@) == #[trigger] config_asked(
                    m,
                    action,
                    items@,
                    shared_mode,
                    download_dir,
                )
        }),
{
    let download_dir = match action {
        ConfigAction::StartEditOrBrowse => user_download_dir(),
        _ => None,
    };
    reduce_config_action_from(
        action,
        settings_edit,
        selected_index,
        items,
        editing,
        shared_mode,
        download_dir,
    )
}

/// Only the picker of a path that is not set goes by the user's download
/// directory.
pub proof fn only_an_unset_path_needs_the_download_directory(
    m: ConfigModel,
    action: ConfigAction,
    items: Seq<ConfigItem>,
    shared_mode: bool,
    a: Option<Seq<char>>,
    b: Option<Seq<char>>,
)
    requires
        action == ConfigAction::StartEditOrBrowse ==> {
            &&& items[m.selected] == ConfigItem::WatchFolder ==> m.settings.watch_folder is Some
            &&& items[m.selected] == ConfigItem::DefaultDownloadFolder
                ==> m.settings.default_download_folder is Some
        },
    ensures
        config_asked(m, action, items, shared_mode, a) == config_asked(
            m,
            action,
            items,
            shared_mode,
            b,
        ),
{
}

// ----------------------------------------------------------------- the events

pub open spec fn moves_focus(action: ConfigAction) -> bool {
    match action {
        ConfigAction::StartEditOrBrowse | ConfigAction::ToggleSelectedBool
        | ConfigAction::SetSelectedBool(_) | ConfigAction::ResetSelected => true,
        _ => false,
    }
}

/// Whether an action in the list hands the keys to the details first.
pub fn settings_focus_moves_to_details(action: &ConfigAction) -> (moves: bool)
    ensures
        moves == moves_focus(*action),
{
    match *action {
        ConfigAction::StartEditOrBrowse | ConfigAction::ToggleSelectedBool
        | ConfigAction::SetSelectedBool(_) | ConfigAction::ResetSelected => true,
        _ => false,
    }
}

/// Whether the list ignores an action.
pub fn settings_pane_ignores_action(action: &ConfigAction) -> (ignored: bool)
    ensures
        ignored == (*action is IncreaseSelected || *action is DecreaseSelected),
{
    match *action {
        ConfigAction::IncreaseSelected | ConfigAction::DecreaseSelected => true,
        _ => false,
    }
}

/// Whether the details ignore an action.
pub fn controls_pane_ignores_action(action: &ConfigAction) -> (ignored: bool)
    ensures
        ignored == (*action is MoveUp || *action is MoveDown),
{
    match *action {
        ConfigAction::MoveUp | ConfigAction::MoveDown => true,
        _ => false,
    }
}

/// The state of the screen.
pub struct ConfigHandleContext {
    pub mode: AppMode,
    pub settings_edit: Settings,
    pub selected_index: usize,
    pub items: Vec<ConfigItem>,
    pub active_pane: ConfigPane,
    pub editing: Option<(ConfigItem, String)>,
    pub file_browser_generation: u64,
}

#[verifier::ext_equal]
pub struct ConfigContextView {
    pub mode: AppMode,
    pub model: ConfigModel,
    pub items: Seq<ConfigItem>,
    pub active_pane: ConfigPane,
    pub file_browser_generation: u64,
}

impl View for ConfigHandleContext {
    type V = ConfigContextView;

    open spec fn view(&self) -> ConfigContextView {
        ConfigContextView {
            mode: self.mode,
            model: config_model(self.settings_edit, self.selected_index, self.editing),
            items: self.items@,
            active_pane: self.active_pane,
            file_browser_generation: self.file_browser_generation,
        }
    }
}

/// What a key event does on the screen.
pub enum ConfigStep {
    /// It means nothing here.
    Nothing,
    /// It is taken and changes nothing.
    Ignored,
    /// It hands the keys to one of the panes.
    Focus(ConfigPane),
    /// It is an action.
    Act(ConfigAction),
}

/// What an event does. Focus and editing decide; only key presses count.
pub open spec fn config_step(event: TerminalEvent, editing: bool, pane: ConfigPane) -> ConfigStep {
    match event {
        TerminalEvent::Key(key) => if key.kind != KeyEventKind::Press {
            ConfigStep::Nothing
        } else {
            match config_key(key.code, editing) {
                Some(action) => if action == ConfigAction::ToggleFocus {
                    ConfigStep::Focus(other_pane(pane))
                } else if pane == ConfigPane::Details && (action is MoveUp || action is MoveDown) {
                    ConfigStep::Ignored
                } else if pane == ConfigPane::Settings && (action is IncreaseSelected
                    || action is DecreaseSelected) {
                    ConfigStep::Ignored
                } else if pane == ConfigPane::Settings && moves_focus(action) {
                    ConfigStep::Focus(ConfigPane::Details)
                } else {
                    ConfigStep::Act(action)
                },
                None => ConfigStep::Nothing,
            }
        },
        TerminalEvent::Other => ConfigStep::Nothing,
    }
}

/// An effect as it leaves the screen: a request for a directory takes the next
/// number, and leaving takes one too, so that answers to earlier requests can be
/// told from later ones.
pub open spec fn numbered(effects: Seq<ConfigEffectView>, generation: u64) -> (
    Seq<ConfigEffectView>,
    u64,
)
    decreases effects.len(),
{
    if effects.len() == 0 {
        (Seq::empty(), generation)
    } else {
        let (head, before) = numbered(effects.drop_last(), generation);
        let next = before.wrapping_add(1);
        match effects.last() {
            ConfigEffectView::FetchFileTree {
                path,
                target_item,
                current_settings,
                selected_index,
                items,
                ..
            } => (
                head.push(
                    ConfigEffectView::FetchFileTree {
                        browser_generation: next,
                        path,
                        target_item,
                        current_settings,
                        selected_index,
                        items,
                    },
                ),
                next,
            ),
            ConfigEffectView::ToNormal => (head.push(effects.last()), next),
            _ => (head.push(effects.last()), before),
        }
    }
}

fn number_effects(effects: Vec<ConfigEffect>, ctx: &mut ConfigHandleContext) -> (sent: Vec<
    ConfigEffect,
>)
    ensures
        ({
            let (views, generation) = numbered(
                config_effects(effects@),
                old(ctx).file_browser_generation,
            );
            &&& config_effects(sent@) == views
            &&& final(ctx)@ == (ConfigContextView {
                file_browser_generation: generation,
                mode: if config_effects(effects@).contains(ConfigEffectView::ToNormal) {
                    AppMode::Normal
                } else {
                    old(ctx).mode
                },
                ..old(ctx)@
            })
        }),
{
    let ghost all = config_effects(effects@);
    let ghost first = ctx@;
    let mut effects = effects;
    let mut sent: Vec<ConfigEffect> = Vec::new();
    let mut leaving = false;
    let ghost mut done: int = 0;
    assert(config_effects(sent@) =~= Seq::<ConfigEffectView>::empty());
    assert(all.take(0) =~= Seq::<ConfigEffectView>::empty());
    assert(all.skip(0) =~= all);
    while effects.len() > 0
        invariant
            0 <= done <= all.len(),
            config_effects(effects@) == all.skip(done),
            numbered(all.take(done), first.file_browser_generation) == (
                config_effects(sent@),
                ctx.file_browser_generation,
            ),
            ctx@ == (ConfigContextView {
                file_browser_generation: ctx.file_browser_generation,
                ..first
            }),
            leaving == all.take(done).contains(ConfigEffectView::ToNormal),
        decreases effects@.len(),
    {
        let ghost rest = all.skip(done);
        let ghost was = effects@;
        assert(config_effects(was).len() == was.len());
        let effect = effects.remove(0);
        proof {
            assert forall|k: int| 0 <= k < effects@.len() implies config_effects(effects@)[k]
                == #[trigger] all.skip(done + 1)[k] by {
                assert(config_effects(was)[k + 1] == rest[k + 1]);
            }
            assert(effect@ == rest[0]);
            assert(config_effects(effects@) =~= all.skip(done + 1));
            assert(all.take(done + 1).drop_last() =~= all.take(done));
            assert(all.take(done + 1).last() == effect@);
            assert(all.take(done + 1) =~= all.take(done).push(effect@));
            crate::lists::contains_push(all.take(done), effect@, ConfigEffectView::ToNormal);
            done = done + 1;
        }
        let effect = match effect {
            ConfigEffect::AppCommand(command) => {
                let command = match *command {
                    ConfigCommand::FetchFileTree {
                        path,
                        target_item,
                        current_settings,
                        selected_index,
                        items,
                        ..
                    } => {
                        ctx.file_browser_generation = ctx.file_browser_generation.wrapping_add(1);
                        ConfigCommand::FetchFileTree {
                            browser_generation: ctx.file_browser_generation,
                            path,
                            target_item,
                            current_settings,
                            selected_index,
                            items,
                        }
                    },
                    ConfigCommand::UpdateConfig(settings) => ConfigCommand::UpdateConfig(settings),
                };
                ConfigEffect::AppCommand(Box::new(command))
            },
            ConfigEffect::ToNormal => {
                ctx.file_browser_generation = ctx.file_browser_generation.wrapping_add(1);
                leaving = true;
                ConfigEffect::ToNormal
            },
            other => other,
        };
        push_config_effect(&mut sent, effect);
    }
    assert(config_effects(effects@).len() == 0);
    assert(all.take(done) =~= all);
    if leaving {
        ctx.mode = AppMode::Normal;
    }
    sent
}

/// The state of the screen after an event, and what is sent to the program.
pub open spec fn config_handled(
    c: ConfigContextView,
    event: TerminalEvent,
    shared_mode: bool,
    download_dir: Option<Seq<char>>,
) -> (ConfigContextView, Seq<ConfigEffectView>) {
    match config_step(event, c.model.editing is Some, c.active_pane) {
        ConfigStep::Nothing | ConfigStep::Ignored => (c, Seq::empty()),
        ConfigStep::Focus(pane) => (
            ConfigContextView { active_pane: pane, ..c },
            Seq::empty(),
        ),
        ConfigStep::Act(action) => {
            let asked = config_asked(c.model, action, c.items, shared_mode, download_dir);
            let (sent, generation) = numbered(asked, c.file_browser_generation);
            (
                ConfigContextView {
                    model: config_reduced(c.model, action, c.items, shared_mode),
                    file_browser_generation: generation,
                    mode: if action == ConfigAction::SaveAndExit {
                        AppMode::Normal
                    } else {
                        c.mode
                    },
                    ..c
                },
                sent,
            )
        },
    }
}

/// Whether an event is about the selected setting.
pub open spec fn needs_selection(event: TerminalEvent, c: ConfigContextView) -> bool {
    match config_step(event, c.model.editing is Some, c.active_pane) {
        ConfigStep::Act(action) => acts_on_selection(action),
        _ => false,
    }
}

/// Whether an event can be handled: one about the selected setting needs one.
pub open spec fn can_handle(event: TerminalEvent, c: ConfigContextView) -> bool {
    needs_selection(event, c) ==> 0 <= c.model.selected < c.items.len()
}

/// Whether an event is about the selected setting.
pub fn event_needs_selection(event: TerminalEvent, ctx: &ConfigHandleContext) -> (needed: bool)
    ensures
        needed == needs_selection(event, ctx@),
{
    let key = match event {
        TerminalEvent::Key(key) => key,
        TerminalEvent::Other => {
            return false;
        },
    };
    if key.kind != KeyEventKind::Press || ctx.active_pane == ConfigPane::Settings {
        return false;
    }
    match map_key_to_config_action(key.code, &ctx.editing) {
        Some(action) => match action {
            ConfigAction::StartEditOrBrowse | ConfigAction::ToggleSelectedBool
            | ConfigAction::SetSelectedBool(_) | ConfigAction::ResetSelected
            | ConfigAction::IncreaseSelected | ConfigAction::DecreaseSelected => true,
            _ => false,
        },
        None => false,
    }
}

proof fn only_leaving_asks_to_leave(
    m: ConfigModel,
    action: ConfigAction,
    items: Seq<ConfigItem>,
    shared_mode: bool,
    download_dir: Option<Seq<char>>,
)
    ensures
        config_asked(m, action, items, shared_mode, download_dir).contains(
            ConfigEffectView::ToNormal,
        ) == (action == ConfigAction::SaveAndExit),
{
    let asked = config_asked(m, action, items, shared_mode, download_dir);
    if action == ConfigAction::SaveAndExit {
        assert(asked[1] == ConfigEffectView::ToNormal);
    }
}

/// Handles one terminal event on a machine whose user has the given download
/// directory. Says whether the event was taken, and what to send to the program.
pub fn handle_event_from(
    event: TerminalEvent,
    ctx: &mut ConfigHandleContext,
    shared_mode: bool,
    download_dir: Option<String>,
) -> (outcome: (bool, Vec<ConfigEffect>))
    requires
        can_handle(event, old(ctx)@),
    ensures
        outcome.0 == !(config_step(event, old(ctx).editing is Some, old(ctx).active_pane)
            is Nothing),
        (final(ctx)@, config_effects(outcome.1@)) == config_handled(
            old(ctx)@,
            event,
            shared_mode,
            text_view(download_dir),
        ),
{
    let effects: Vec<ConfigEffect> = Vec::new();
    assert(config_effects(effects@) =~= Seq::<ConfigEffectView>::empty());
    let key = match event {
        TerminalEvent::Key(key) => key,
        TerminalEvent::Other => {
            return (false, effects);
        },
    };
    if key.kind != KeyEventKind::Press {
        return (false, effects);
    }
    let action = match map_key_to_config_action(key.code, &ctx.editing) {
        Some(action) => action,
        None => {
            return (false, effects);
        },
    };
    if action == ConfigAction::ToggleFocus {
        toggle_config_pane(&mut ctx.active_pane);
        return (true, effects);
    }
    if ctx.active_pane == ConfigPane::Details && controls_pane_ignores_action(&action) {
        return (true, effects);
    }
    if ctx.active_pane == ConfigPane::Settings && settings_pane_ignores_action(&action) {
        return (true, effects);
    }
    if ctx.active_pane == ConfigPane::Settings && settings_focus_moves_to_details(&action) {
        ctx.active_pane = ConfigPane::Details;
        return (true, effects);
    }
    let ghost before = ctx@;
    let ghost dir = text_view(download_dir);
    let reduced = reduce_config_action_from(
        action,
        &mut ctx.settings_edit,
        &mut ctx.selected_index,
        ctx.items.as_slice(),
        &mut ctx.editing,
        shared_mode,
        download_dir,
    );
    proof {
        only_leaving_asks_to_leave(before.model, action, before.items, shared_mode, dir);
    }
    let sent = number_effects(reduced.effects, ctx);
    (reduced.consumed, sent)
}

/// Handles one terminal event. Says whether the event was taken, and what to send
/// to the program.
pub fn handle_event(event: TerminalEvent, ctx: &mut ConfigHandleContext, shared_mode: bool) -> (outcome:
    (bool, Vec<ConfigEffect>))
    requires
        can_handle(event, old(ctx)@),
    ensures
        outcome.0 == !(config_step(event, old(ctx).editing is Some, old(ctx).active_pane)
            is Nothing),
        exists|download_dir: Option<Seq<char>>|
            (final(ctx)@, config_effects(outcome.1@)) == #[trigger] config_handled(
                old(ctx)@,
                event,
                shared_mode,
                download_dir,
            ),
{
    let download_dir = user_download_dir();
    handle_event_from(event, ctx, shared_mode, download_dir)
}

// ------------------------------------------------------------------- the laws

/// The port is never set to zero.
pub proof fn the_port_is_never_zero(
    m: ConfigModel,
    action: ConfigAction,
    items: Seq<ConfigItem>,
    shared_mode: bool,
)
    requires
        m.settings.client_port > 0,
    ensures
        config_reduced(m, action, items, shared_mode).settings.client_port > 0,
{
}

/// Every action leaves the selection on a setting.
pub proof fn every_action_leaves_the_selection_on_a_setting(
    m: ConfigModel,
    action: ConfigAction,
    items: Seq<ConfigItem>,
    shared_mode: bool,
)
    requires
        items.len() <= usize::MAX,
        0 <= m.selected < items.len(),
    ensures
        0 <= config_reduced(m, action, items, shared_mode).selected < items.len(),
{
    moving_stays_on_a_setting_and_can_be_undone(items, m.selected);
}

/// Whether only digits were typed.
pub open spec fn digits_only(editing: Option<(ConfigItem, Seq<char>)>) -> bool {
    editing matches Some((_, buffer)) ==> forall|k: int|
        0 <= k < buffer.len() ==> is_digit(#[trigger] buffer[k])
}

/// Whatever keys come, only digits are typed.
pub proof fn only_digits_are_typed(
    c: ConfigContextView,
    event: TerminalEvent,
    shared_mode: bool,
    download_dir: Option<Seq<char>>,
)
    requires
        digits_only(c.model.editing),
    ensures
        digits_only(config_handled(c, event, shared_mode, download_dir).0.model.editing),
{
}

/// In the shared mode nothing done here changes the shared path.
pub proof fn the_shared_path_is_left_alone(
    m: ConfigModel,
    action: ConfigAction,
    items: Seq<ConfigItem>,
)
    ensures
        config_reduced(m, action, items, true).settings.default_download_folder
            == m.settings.default_download_folder,
{
}

/// A number that cannot be committed stays where it can be mended, and changes
/// nothing.
pub proof fn a_bad_number_stays_in_the_editor(
    m: ConfigModel,
    items: Seq<ConfigItem>,
    shared_mode: bool,
    download_dir: Option<Seq<char>>,
)
    requires
        m.editing matches Some((item, buffer)) && !is_committable(item, buffer),
    ensures
        config_reduced(m, ConfigAction::EditCommit, items, shared_mode) == m,
        config_asked(m, ConfigAction::EditCommit, items, shared_mode, download_dir).len() == 0,
{
}

/// A rate never changes without the program being told.
pub proof fn changed_rates_are_told(
    m: ConfigModel,
    action: ConfigAction,
    items: Seq<ConfigItem>,
    shared_mode: bool,
    download_dir: Option<Seq<char>>,
)
    requires
        action is IncreaseSelected || action is DecreaseSelected || action is EditCommit,
    ensures
        ({
            let after = config_reduced(m, action, items, shared_mode).settings;
            let asked = config_asked(m, action, items, shared_mode, download_dir);
            &&& after.global_download_limit_bps != m.settings.global_download_limit_bps ==> asked
                == seq![ConfigEffectView::SetDownloadRate(after.global_download_limit_bps)]
            &&& after.global_upload_limit_bps != m.settings.global_upload_limit_bps ==> asked
                == seq![ConfigEffectView::SetUploadRate(after.global_upload_limit_bps)]
        }),
{
}

} // verus!
