//! What the keys of the settings screen do.
use crate::app::AppMode;
use crate::config::SettingsView;
use crate::keys::{press, KeyCode, TerminalEvent};
use crate::text::{decimal, digit, digits_value, is_digit, number_in};
use crate::tui::layout::config::UiLayoutMode;
use crate::tui::screens::config::list::{
    every_setting_is_listed_once, listed_places, listed_settings, ConfigItem,
};
use crate::tui::screens::config::{
    config_handled, numbered, ConfigContextView, ConfigEffectView, ConfigModel, ConfigPane,
};
use vstd::prelude::*;

verus! {

/// The screen after a key, on a host with settings of its own and no download directory.
pub open spec fn after(c: ConfigContextView, code: KeyCode) -> ConfigContextView {
    config_handled(c, press(code), false, None).0
}

/// What is sent to the program for a key.
pub open spec fn sent(c: ConfigContextView, code: KeyCode) -> Seq<ConfigEffectView> {
    config_handled(c, press(code), false, None).1
}

/// The details of a setting take the keys, and nothing is being typed.
pub open spec fn is_at(c: ConfigContextView, item: ConfigItem) -> bool {
    &&& c.active_pane == ConfigPane::Details
    &&& c.model.editing is None
    &&& 0 <= c.model.selected < c.items.len()
    &&& c.items[c.model.selected] == item
}

/// The screen with other settings.
pub open spec fn with_settings(c: ConfigContextView, settings: SettingsView) -> ConfigContextView {
    ConfigContextView { model: ConfigModel { settings, ..c.model }, ..c }
}

/// The rate limit that a setting is.
pub open spec fn limit_of(s: SettingsView, item: ConfigItem) -> u64 {
    if item == ConfigItem::GlobalUploadLimit {
        s.global_upload_limit_bps
    } else {
        s.global_download_limit_bps
    }
}

/// The settings with another limit.
pub open spec fn with_limit(s: SettingsView, item: ConfigItem, limit: u64) -> SettingsView {
    if item == ConfigItem::GlobalUploadLimit {
        SettingsView { global_upload_limit_bps: limit, ..s }
    } else {
        SettingsView { global_download_limit_bps: limit, ..s }
    }
}

/// That a limit is told to the program, and nothing else.
pub open spec fn tells_limit(
    effects: Seq<ConfigEffectView>,
    item: ConfigItem,
    limit: u64,
) -> bool {
    &&& effects.len() == 1
    &&& effects[0] == if item == ConfigItem::GlobalUploadLimit {
        ConfigEffectView::SetUploadRate(limit)
    } else {
        ConfigEffectView::SetDownloadRate(limit)
    }
}

/// Whether a setting is one of the two rate limits.
pub open spec fn is_limit(item: ConfigItem) -> bool {
    item == ConfigItem::GlobalUploadLimit || item == ConfigItem::GlobalDownloadLimit
}

proof fn one_effect(effect: ConfigEffectView, generation: u64)
    ensures
        numbered(seq![effect], generation).0.len() == 1,
        !(effect is FetchFileTree) ==> numbered(seq![effect], generation).0[0] == effect,
        !(effect is FetchFileTree) && !(effect is ToNormal) ==> numbered(
            seq![effect],
            generation,
        ).1 == generation,
{
    reveal_with_fuel(numbered, 2);
    assert(seq![effect].drop_last() =~= Seq::<ConfigEffectView>::empty());
}

/// Right raises either limit by ten kilobytes, as far as the range goes, and Left lowers
/// it by as much. Both tell the program the new limit and leave all other settings as
/// they are.
pub proof fn arrows_step_a_limit(c: ConfigContextView, item: ConfigItem)
    requires
        is_limit(item),
        is_at(c, item),
        0 < limit_of(c.model.settings, item) < 0xffff_ffff_ffff_ffff,
    ensures
        ({
            let s = c.model.settings;
            let limit = limit_of(s, item) as int;
            let raised = if limit + 80_000 < 0xffff_ffff_ffff_ffff {
                limit + 80_000
            } else {
                0xffff_ffff_ffff_ffff
            };
            &&& after(c, KeyCode::Right) == with_settings(c, with_limit(s, item, raised as u64))
            &&& tells_limit(sent(c, KeyCode::Right), item, raised as u64)
            &&& limit > 80_000 ==> after(c, KeyCode::Left) == with_settings(
                c,
                with_limit(s, item, (limit - 80_000) as u64),
            ) && tells_limit(sent(c, KeyCode::Left), item, (limit - 80_000) as u64)
            &&& limit_of(after(c, KeyCode::Right).model.settings, item) > limit_of(s, item)
        }),
{
    let right = limit_of(after(c, KeyCode::Right).model.settings, item);
    let left = limit_of(after(c, KeyCode::Left).model.settings, item);
    one_effect(ConfigEffectView::SetUploadRate(right), c.file_browser_generation);
    one_effect(ConfigEffectView::SetDownloadRate(right), c.file_browser_generation);
    one_effect(ConfigEffectView::SetUploadRate(left), c.file_browser_generation);
    one_effect(ConfigEffectView::SetDownloadRate(left), c.file_browser_generation);
}

/// Left after Right, and Right after Left, give the settings back, unless the range or
/// the lowest limit is in the way.
pub proof fn arrows_undo_one_another(c: ConfigContextView, item: ConfigItem)
    requires
        is_limit(item),
        is_at(c, item),
        0 < limit_of(c.model.settings, item) < 0xffff_ffff_ffff_ffff,
    ensures
        limit_of(c.model.settings, item) + 80_000 < 0xffff_ffff_ffff_ffff ==> after(
            after(c, KeyCode::Right),
            KeyCode::Left,
        ) == c,
        limit_of(c.model.settings, item) > 80_000 ==> after(
            after(c, KeyCode::Left),
            KeyCode::Right,
        ) == c,
{
    arrows_step_a_limit(c, item);
    let up = after(c, KeyCode::Right);
    let down = after(c, KeyCode::Left);
    if limit_of(c.model.settings, item) + 80_000 < 0xffff_ffff_ffff_ffff {
        arrows_step_a_limit(up, item);
        assert(after(up, KeyCode::Left) =~= c);
    }
    if limit_of(c.model.settings, item) > 80_000 {
        arrows_step_a_limit(down, item);
        assert(after(down, KeyCode::Right) =~= c);
    }
}

/// No limit at all stands between nothing and the lowest limit: Right goes from nothing
/// to no limit and on to the lowest one, and Left the same way back.
pub proof fn no_limit_is_between_nothing_and_the_lowest(c: ConfigContextView, item: ConfigItem)
    requires
        is_limit(item),
        is_at(c, item),
    ensures
        ({
            let s = c.model.settings;
            let none = with_settings(c, with_limit(s, item, 0));
            let free = with_settings(c, with_limit(s, item, 0xffff_ffff_ffff_ffff));
            let lowest = with_settings(c, with_limit(s, item, 80_000));
            &&& after(none, KeyCode::Right) == free
            &&& after(free, KeyCode::Right) == lowest
            &&& after(lowest, KeyCode::Left) == free
            &&& after(free, KeyCode::Left) == none
            &&& after(none, KeyCode::Left) == none
        }),
{
    let s = c.model.settings;
    let none = with_settings(c, with_limit(s, item, 0));
    let free = with_settings(c, with_limit(s, item, 0xffff_ffff_ffff_ffff));
    let lowest = with_settings(c, with_limit(s, item, 80_000));
    one_effect(ConfigEffectView::SetUploadRate(0), c.file_browser_generation);
    one_effect(ConfigEffectView::SetDownloadRate(0), c.file_browser_generation);
    one_effect(ConfigEffectView::SetUploadRate(80_000), c.file_browser_generation);
    one_effect(ConfigEffectView::SetDownloadRate(80_000), c.file_browser_generation);
    one_effect(
        ConfigEffectView::SetUploadRate(0xffff_ffff_ffff_ffff),
        c.file_browser_generation,
    );
    one_effect(
        ConfigEffectView::SetDownloadRate(0xffff_ffff_ffff_ffff),
        c.file_browser_generation,
    );
    assert(after(none, KeyCode::Right) =~= free);
    assert(after(free, KeyCode::Right) =~= lowest);
    assert(after(lowest, KeyCode::Left) =~= free);
    assert(after(free, KeyCode::Left) =~= none);
    assert(after(none, KeyCode::Left) =~= none);
}

// ------------------------------------------------------------ what is typed

proof fn digits_are_read_back(n: nat)
    ensures
        decimal(n).len() > 0,
        forall|k: int| 0 <= k < decimal(n).len() ==> is_digit(#[trigger] decimal(n)[k]),
        digits_value(decimal(n)) == Some(n as int),
    decreases n,
{
    if n >= 10 {
        digits_are_read_back(n / 10);
        let head = decimal(n / 10);
        let last = digit((n % 10) as int);
        assert(head.push(last).drop_last() =~= head);
        assert forall|k: int| 0 <= k < decimal(n).len() implies is_digit(
            #[trigger] decimal(n)[k],
        ) by {
            if k < head.len() {
                assert(decimal(n)[k] == head[k]);
            }
        }
    } else {
        let only = seq![digit(n as int)];
        assert(only.drop_last() =~= Seq::<char>::empty());
        reveal_with_fuel(digits_value, 2);
    }
}

/// The number that a text writes is read back from it.
pub proof fn numbers_are_read_back(n: nat)
    ensures
        number_in(decimal(n)) == Some(n as int),
{
    digits_are_read_back(n);
    assert(is_digit(decimal(n)[0]));
}

/// A number is being typed for a setting.
pub open spec fn types(c: ConfigContextView, item: ConfigItem, buffer: Seq<char>) -> bool {
    c.model.editing == Some((item, buffer))
}

/// Enter on a number starts with nothing typed. A digit is put behind what was typed,
/// Backspace takes the last one off, and Esc gives up; none of them changes a setting.
pub proof fn numbers_are_typed_digit_by_digit(
    c: ConfigContextView,
    item: ConfigItem,
    buffer: Seq<char>,
    digit: char,
)
    requires
        '0' <= digit <= '9',
    ensures
        is_at(c, item) && (is_limit(item) || item == ConfigItem::ClientPort) ==> types(
            after(c, KeyCode::Enter),
            item,
            Seq::empty(),
        ) && after(c, KeyCode::Enter).model.settings == c.model.settings,
        types(c, item, buffer) ==> {
            &&& types(after(c, KeyCode::Char(digit)), item, buffer.push(digit))
            &&& after(c, KeyCode::Char(digit)).model.settings == c.model.settings
            &&& buffer.len() > 0 ==> types(
                after(c, KeyCode::Backspace),
                item,
                buffer.subrange(0, buffer.len() - 1),
            )
            &&& after(c, KeyCode::Backspace).model.settings == c.model.settings
            &&& after(c, KeyCode::Esc).model.editing is None
            &&& after(c, KeyCode::Esc).model.settings == c.model.settings
        },
{
    if buffer.len() > 0 {
        assert(buffer.drop_last() =~= buffer.subrange(0, buffer.len() - 1));
    }
}

/// Enter sets a limit to the number that was typed and tells the program, whatever the
/// number is, as long as a counter holds it; else nothing changes.
pub proof fn typed_limits_are_set(c: ConfigContextView, item: ConfigItem, n: nat)
    requires
        is_limit(item),
        types(c, item, decimal(n)),
    ensures
        ({
            let set = after(c, KeyCode::Enter);
            if n <= 0xffff_ffff_ffff_ffff {
                &&& set.model.editing is None
                &&& set.model.settings == with_limit(c.model.settings, item, n as u64)
                &&& tells_limit(sent(c, KeyCode::Enter), item, n as u64)
            } else {
                &&& set.model == c.model
                &&& sent(c, KeyCode::Enter).len() == 0
            }
        }),
{
    numbers_are_read_back(n);
    one_effect(ConfigEffectView::SetUploadRate(n as u64), c.file_browser_generation);
    one_effect(ConfigEffectView::SetDownloadRate(n as u64), c.file_browser_generation);
    reveal_with_fuel(numbered, 1);
}

/// Enter sets the port to the number that was typed if it is one of a port, from 1 to
/// 65535; else nothing changes.
pub proof fn typed_ports_are_set(c: ConfigContextView, n: nat)
    requires
        types(c, ConfigItem::ClientPort, decimal(n)),
    ensures
        ({
            let set = after(c, KeyCode::Enter);
            &&& sent(c, KeyCode::Enter).len() == 0
            &&& if 1 <= n <= 65_535 {
                &&& set.model.editing is None
                &&& set.model.settings == (SettingsView {
                    client_port: n as u16,
                    ..c.model.settings
                })
            } else {
                set.model == c.model
            }
        }),
{
    numbers_are_read_back(n);
    reveal_with_fuel(numbered, 1);
}

// ------------------------------------------------------ switches and choices

/// On the switch t turns it on, f off, and Space and Enter turn it round; nothing else
/// changes and nothing is sent.
pub proof fn the_switch_is_switched(c: ConfigContextView)
    requires
        is_at(c, ConfigItem::AlwaysShowAddLocationPrompt),
    ensures
        ({
            let s = c.model.settings;
            let on = SettingsView { always_show_add_location_prompt: true, ..s };
            let off = SettingsView { always_show_add_location_prompt: false, ..s };
            &&& after(c, KeyCode::Char('t')) == with_settings(c, on)
            &&& after(c, KeyCode::Char('f')) == with_settings(c, off)
            &&& after(c, KeyCode::Char(' ')) == with_settings(
                c,
                if s.always_show_add_location_prompt {
                    off
                } else {
                    on
                },
            )
            &&& after(c, KeyCode::Enter) == after(c, KeyCode::Char(' '))
            &&& sent(c, KeyCode::Char(' ')).len() == 0
        }),
{
    reveal_with_fuel(numbered, 1);
    let s = c.model.settings;
    let on = SettingsView { always_show_add_location_prompt: true, ..s };
    let off = SettingsView { always_show_add_location_prompt: false, ..s };
    assert(after(c, KeyCode::Char('t')) =~= with_settings(c, on));
    assert(after(c, KeyCode::Char('f')) =~= with_settings(c, off));
}

/// On a setting that is no switch, the keys of the switch change nothing.
pub proof fn only_the_switch_is_switched(c: ConfigContextView, item: ConfigItem)
    requires
        is_at(c, item),
        item != ConfigItem::AlwaysShowAddLocationPrompt,
    ensures
        after(c, KeyCode::Char('t')) == c,
        after(c, KeyCode::Char('f')) == c,
        after(c, KeyCode::Char(' ')) == c,
{
    reveal_with_fuel(numbered, 1);
    assert(after(c, KeyCode::Char('t')) =~= c);
    assert(after(c, KeyCode::Char('f')) =~= c);
    assert(after(c, KeyCode::Char(' ')) =~= c);
}

/// The arrangement of the screen.
pub open spec fn mode_of(c: ConfigContextView) -> UiLayoutMode {
    c.model.settings.ui_layout_mode
}

/// Right goes through all four arrangements of the screen and comes back to the first;
/// Left goes the other way. All else stays as it is.
pub proof fn arrangements_go_round(c: ConfigContextView)
    requires
        is_at(c, ConfigItem::UiLayoutMode),
    ensures
        ({
            let one = after(c, KeyCode::Right);
            let two = after(one, KeyCode::Right);
            let three = after(two, KeyCode::Right);
            &&& mode_of(one) != mode_of(c) && mode_of(two) != mode_of(c) && mode_of(three)
                != mode_of(c)
            &&& mode_of(one) != mode_of(two) && mode_of(two) != mode_of(three) && mode_of(one)
                != mode_of(three)
            &&& after(three, KeyCode::Right) == c
            &&& after(one, KeyCode::Left) == c
            &&& one == with_settings(
                c,
                SettingsView { ui_layout_mode: mode_of(one), ..c.model.settings },
            )
            &&& after(c, KeyCode::Enter) == one
            &&& sent(c, KeyCode::Right).len() == 0
        }),
{
    reveal_with_fuel(numbered, 1);
    let one = after(c, KeyCode::Right);
    let two = after(one, KeyCode::Right);
    let three = after(two, KeyCode::Right);
    assert(one =~= with_settings(
        c,
        SettingsView { ui_layout_mode: mode_of(one), ..c.model.settings },
    ));
    assert(after(three, KeyCode::Right) =~= c);
    assert(after(one, KeyCode::Left) =~= c);
}

/// The settings differ at most in one of them.
pub open spec fn differ_at_most_in(a: SettingsView, b: SettingsView, item: ConfigItem) -> bool {
    &&& item != ConfigItem::ClientPort ==> a.client_port == b.client_port
    &&& item != ConfigItem::DefaultDownloadFolder ==> a.default_download_folder
        == b.default_download_folder
    &&& item != ConfigItem::WatchFolder ==> a.watch_folder == b.watch_folder
    &&& item != ConfigItem::AlwaysShowAddLocationPrompt ==> a.always_show_add_location_prompt
        == b.always_show_add_location_prompt
    &&& item != ConfigItem::UiLayoutMode ==> a.ui_layout_mode == b.ui_layout_mode
    &&& item != ConfigItem::GlobalDownloadLimit ==> a.global_download_limit_bps
        == b.global_download_limit_bps
    &&& item != ConfigItem::GlobalUploadLimit ==> a.global_upload_limit_bps
        == b.global_upload_limit_bps
}

/// A key in the details changes the selected setting at most.
pub proof fn only_the_selected_setting_changes(
    c: ConfigContextView,
    item: ConfigItem,
    code: KeyCode,
    shared_mode: bool,
    download_dir: Option<Seq<char>>,
)
    requires
        is_at(c, item),
    ensures
        differ_at_most_in(
            config_handled(c, press(code), shared_mode, download_dir).0.model.settings,
            c.model.settings,
            item,
        ),
{
}

/// r puts the selected setting back: paths unset, the limits off, the switch off and the
/// arrangement automatic.
pub proof fn a_setting_is_put_back(c: ConfigContextView, item: ConfigItem)
    requires
        is_at(c, item),
    ensures
        ({
            let s = after(c, KeyCode::Char('r')).model.settings;
            &&& differ_at_most_in(s, c.model.settings, item)
            &&& item == ConfigItem::ClientPort ==> s.client_port == 6681
            &&& item == ConfigItem::DefaultDownloadFolder ==> s.default_download_folder is None
            &&& item == ConfigItem::WatchFolder ==> s.watch_folder is None
            &&& item == ConfigItem::AlwaysShowAddLocationPrompt
                ==> !s.always_show_add_location_prompt
            &&& item == ConfigItem::UiLayoutMode ==> s.ui_layout_mode == UiLayoutMode::Auto
            &&& is_limit(item) ==> limit_of(s, item) == 0xffff_ffff_ffff_ffff
        }),
{
}

// ------------------------------------------------------ paths, panes, leaving

/// Enter on a path asks for the picker at that path, under a new number; without a path
/// it starts in the download directory, or where the program runs.
pub proof fn the_picker_starts_at_the_path(
    c: ConfigContextView,
    item: ConfigItem,
    download_dir: Option<Seq<char>>,
)
    requires
        is_at(c, item),
        item == ConfigItem::WatchFolder || item == ConfigItem::DefaultDownloadFolder,
    ensures
        ({
            let (next, asked) = config_handled(c, press(KeyCode::Enter), false, download_dir);
            let set = if item == ConfigItem::WatchFolder {
                c.model.settings.watch_folder
            } else {
                c.model.settings.default_download_folder
            };
            let start = if set is Some {
                set->0
            } else if download_dir is Some {
                download_dir->0
            } else {
                "."@
            };
            &&& next.model == c.model
            &&& c.file_browser_generation < 0xffff_ffff_ffff_ffff ==> next.file_browser_generation
                == c.file_browser_generation + 1
            &&& asked.len() == 1
            &&& asked[0] == ConfigEffectView::FetchFileTree {
                browser_generation: next.file_browser_generation,
                path: start,
                target_item: item,
                current_settings: c.model.settings,
                selected_index: c.model.selected,
                items: c.items,
            }
        }),
{
    reveal_with_fuel(numbered, 2);
    let (next, asked) = config_handled(c, press(KeyCode::Enter), false, download_dir);
    let plain = crate::tui::screens::config::config_asked(
        c.model,
        crate::tui::screens::config::ConfigAction::StartEditOrBrowse,
        c.items,
        false,
        download_dir,
    );
    assert(plain.len() == 1);
    assert(plain.drop_last() =~= Seq::<ConfigEffectView>::empty());
}

/// Esc and Q hand the settings as they are to the program and leave the screen.
pub proof fn leaving_saves_the_settings(c: ConfigContextView, code: KeyCode)
    requires
        c.model.editing is None,
        code == KeyCode::Esc || code == KeyCode::Char('Q'),
    ensures
        after(c, code).mode == AppMode::Normal,
        after(c, code).model == c.model,
        sent(c, code) == seq![
            ConfigEffectView::UpdateConfig(c.model.settings),
            ConfigEffectView::ToNormal,
        ],
{
    reveal_with_fuel(numbered, 3);
    let asked = seq![
        ConfigEffectView::UpdateConfig(c.model.settings),
        ConfigEffectView::ToNormal,
    ];
    assert(asked.drop_last() =~= seq![ConfigEffectView::UpdateConfig(c.model.settings)]);
    assert(asked.drop_last().drop_last() =~= Seq::<ConfigEffectView>::empty());
    assert(sent(c, code) =~= asked);
}

/// No other key leaves the screen.
pub proof fn nothing_else_leaves(
    c: ConfigContextView,
    event: TerminalEvent,
    shared_mode: bool,
    download_dir: Option<Seq<char>>,
)
    ensures
        config_handled(c, event, shared_mode, download_dir).0.mode != c.mode
            ==> c.model.editing is None && (event matches TerminalEvent::Key(key) && (key.code
            == KeyCode::Esc || key.code == KeyCode::Char('Q'))),
{
}

/// Tab hands the keys to the other pane. In the list the keys that change a setting only
/// hand the keys to the details, and the arrows that step do nothing; in the details the
/// arrows that move do nothing.
pub proof fn keys_go_to_their_pane(c: ConfigContextView)
    requires
        c.model.editing is None,
    ensures
        after(c, KeyCode::Tab).model == c.model,
        after(c, KeyCode::Tab).active_pane != c.active_pane,
        after(after(c, KeyCode::Tab), KeyCode::Tab) == c,
        c.active_pane == ConfigPane::Settings ==> {
            &&& forall|code: KeyCode|
                code == KeyCode::Enter || code == KeyCode::Char(' ') || code == KeyCode::Char('t')
                    || code == KeyCode::Char('f') || code == KeyCode::Char('r')
                    ==> #[trigger] after(c, code) == (ConfigContextView {
                    active_pane: ConfigPane::Details,
                    ..c
                })
            &&& after(c, KeyCode::Right) == c
            &&& after(c, KeyCode::Left) == c
        },
        c.active_pane == ConfigPane::Details ==> after(c, KeyCode::Up) == c && after(
            c,
            KeyCode::Down,
        ) == c,
{
    assert(after(after(c, KeyCode::Tab), KeyCode::Tab) =~= c);
}

/// In the list Down goes to the setting that is listed next, and Up to the one listed
/// before; at the ends they stay.
pub proof fn moving_follows_the_list(c: ConfigContextView, k: int)
    requires
        c.model.editing is None,
        c.active_pane == ConfigPane::Settings,
        c.items.len() <= usize::MAX,
        0 <= k < listed_settings(c.items).len(),
        listed_settings(c.items)[k] == c.model.selected,
    ensures
        ({
            let listed = listed_settings(c.items);
            &&& k + 1 < listed.len() ==> after(c, KeyCode::Down).model.selected == listed[k + 1]
            &&& k + 1 == listed.len() ==> after(c, KeyCode::Down).model.selected
                == c.model.selected
            &&& k > 0 ==> after(c, KeyCode::Up).model.selected == listed[k - 1]
            &&& k == 0 ==> after(c, KeyCode::Up).model.selected == c.model.selected
            &&& after(c, KeyCode::Down).model.settings == c.model.settings
            &&& after(c, KeyCode::Up).model.settings == c.model.settings
        }),
{
    every_setting_is_listed_once(c.items);
    listed_places(c.items, k);
}

} // verus!
