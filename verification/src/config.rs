//! The settings that the user can change.
use crate::app::text_view;
use crate::text::owned;
use crate::tui::layout::config::UiLayoutMode;
use vstd::prelude::*;

verus! {

/// The rate that stands for no limit.
pub const UNLIMITED_RATE_LIMIT_BPS: u64 = 0xffff_ffff_ffff_ffff;

#[derive(Debug, PartialEq, Eq)]
pub struct Settings {
    pub client_port: u16,
    pub default_download_folder: Option<String>,
    pub watch_folder: Option<String>,
    pub always_show_add_location_prompt: bool,
    pub ui_layout_mode: UiLayoutMode,
    pub global_download_limit_bps: u64,
    pub global_upload_limit_bps: u64,
}

#[verifier::ext_equal]
pub struct SettingsView {
    pub client_port: u16,
    pub default_download_folder: Option<Seq<char>>,
    pub watch_folder: Option<Seq<char>>,
    pub always_show_add_location_prompt: bool,
    pub ui_layout_mode: UiLayoutMode,
    pub global_download_limit_bps: u64,
    pub global_upload_limit_bps: u64,
}

impl View for Settings {
    type V = SettingsView;

    open spec fn view(&self) -> SettingsView {
        SettingsView {
            client_port: self.client_port,
            default_download_folder: text_view(self.default_download_folder),
            watch_folder: text_view(self.watch_folder),
            always_show_add_location_prompt: self.always_show_add_location_prompt,
            ui_layout_mode: self.ui_layout_mode,
            global_download_limit_bps: self.global_download_limit_bps,
            global_upload_limit_bps: self.global_upload_limit_bps,
        }
    }
}

/// The settings of a session that nobody has changed.
pub open spec fn initial_settings() -> SettingsView {
    SettingsView {
        client_port: 6681,
        default_download_folder: None,
        watch_folder: None,
        always_show_add_location_prompt: false,
        ui_layout_mode: UiLayoutMode::Auto,
        global_download_limit_bps: UNLIMITED_RATE_LIMIT_BPS,
        global_upload_limit_bps: UNLIMITED_RATE_LIMIT_BPS,
    }
}

impl Default for Settings {
    fn default() -> (settings: Settings)
        ensures
            settings@ == initial_settings(),
    {
        Settings {
            client_port: 6681,
            default_download_folder: None,
            watch_folder: None,
            always_show_add_location_prompt: false,
            ui_layout_mode: UiLayoutMode::Auto,
            global_download_limit_bps: UNLIMITED_RATE_LIMIT_BPS,
            global_upload_limit_bps: UNLIMITED_RATE_LIMIT_BPS,
        }
    }
}

/// A copy of a text that may be absent.
pub fn copy_text(text: &Option<String>) -> (copy: Option<String>)
    ensures
        text_view(copy) == text_view(*text),
{
    match text {
        Some(text) => Some(owned(text.as_str())),
        None => None,
    }
}

impl Settings {
    /// A copy of the settings.
    pub fn copy(&self) -> (copy: Settings)
        ensures
            copy@ == self@,
    {
        Settings {
            client_port: self.client_port,
            default_download_folder: copy_text(&self.default_download_folder),
            watch_folder: copy_text(&self.watch_folder),
            always_show_add_location_prompt: self.always_show_add_location_prompt,
            ui_layout_mode: self.ui_layout_mode,
            global_download_limit_bps: self.global_download_limit_bps,
            global_upload_limit_bps: self.global_upload_limit_bps,
        }
    }
}

pub open spec fn next_layout_mode(mode: UiLayoutMode) -> UiLayoutMode {
    match mode {
        UiLayoutMode::Auto => UiLayoutMode::Horizontal,
        UiLayoutMode::Horizontal => UiLayoutMode::Vertical,
        UiLayoutMode::Vertical => UiLayoutMode::Square,
        UiLayoutMode::Square => UiLayoutMode::Auto,
    }
}

pub open spec fn previous_layout_mode(mode: UiLayoutMode) -> UiLayoutMode {
    match mode {
        UiLayoutMode::Auto => UiLayoutMode::Square,
        UiLayoutMode::Horizontal => UiLayoutMode::Auto,
        UiLayoutMode::Vertical => UiLayoutMode::Horizontal,
        UiLayoutMode::Square => UiLayoutMode::Vertical,
    }
}

impl UiLayoutMode {
    /// The next arrangement, and after the last one the first.
    pub fn next(self) -> (mode: UiLayoutMode)
        ensures
            mode == next_layout_mode(self),
    {
        match self {
            UiLayoutMode::Auto => UiLayoutMode::Horizontal,
            UiLayoutMode::Horizontal => UiLayoutMode::Vertical,
            UiLayoutMode::Vertical => UiLayoutMode::Square,
            UiLayoutMode::Square => UiLayoutMode::Auto,
        }
    }

    /// The arrangement before, and before the first one the last.
    pub fn previous(self) -> (mode: UiLayoutMode)
        ensures
            mode == previous_layout_mode(self),
    {
        match self {
            UiLayoutMode::Auto => UiLayoutMode::Square,
            UiLayoutMode::Horizontal => UiLayoutMode::Auto,
            UiLayoutMode::Vertical => UiLayoutMode::Horizontal,
            UiLayoutMode::Square => UiLayoutMode::Vertical,
        }
    }
}

} // verus!
