//! The list of settings, by category.
use crate::lists::{kept, kept_contains, kept_no_duplicates};
use crate::order::positions;
use vstd::prelude::*;

verus! {

/// A setting that the screen can change.
#[derive(Clone, Copy, Debug, PartialEq, Eq, Structural)]
pub enum ConfigItem {
    ClientPort,
    DefaultDownloadFolder,
    WatchFolder,
    UiLayoutMode,
    AlwaysShowAddLocationPrompt,
    GlobalDownloadLimit,
    GlobalUploadLimit,
}

#[derive(Clone, Copy, Debug, PartialEq, Eq, Structural)]
pub enum ConfigCategory {
    Paths,
    Downloads,
    Network,
    Ui,
}

/// The categories in the order of the list.
pub open spec fn categories() -> Seq<ConfigCategory> {
    seq![
        ConfigCategory::Network,
        ConfigCategory::Paths,
        ConfigCategory::Downloads,
        ConfigCategory::Ui,
    ]
}

impl ConfigCategory {
    pub fn label(self) -> (label: &'static str)
        ensures
            label@ == match self {
                ConfigCategory::Paths => "Paths"@,
                ConfigCategory::Downloads => "Downloads"@,
                ConfigCategory::Network => "Network"@,
                ConfigCategory::Ui => "UI"@,
            },
    {
        match self {
            ConfigCategory::Paths => "Paths",
            ConfigCategory::Downloads => "Downloads",
            ConfigCategory::Network => "Network",
            ConfigCategory::Ui => "UI",
        }
    }

    /// The categories in the order of the list.
    pub fn all() -> (all: Vec<ConfigCategory>)
        ensures
            all@ == categories(),
    {
        let mut all: Vec<ConfigCategory> = Vec::new();
        all.push(ConfigCategory::Network);
        all.push(ConfigCategory::Paths);
        all.push(ConfigCategory::Downloads);
        all.push(ConfigCategory::Ui);
        assert(all@ =~= categories());
        all
    }
}

/// How a setting is changed.
#[derive(Clone, Copy, Debug, PartialEq, Eq, Structural)]
pub enum ConfigControlKind {
    Bool,
    Enum,
    Number,
    RateLimit,
    Path,
}

#[derive(Clone, Copy, Debug, PartialEq, Eq)]
pub struct ConfigSettingDescriptor {
    pub item: ConfigItem,
    pub category: ConfigCategory,
    pub label: &'static str,
    pub control: ConfigControlKind,
}

pub open spec fn category_of(item: ConfigItem) -> ConfigCategory {
    match item {
        ConfigItem::ClientPort => ConfigCategory::Network,
        ConfigItem::DefaultDownloadFolder | ConfigItem::WatchFolder => ConfigCategory::Paths,
        ConfigItem::UiLayoutMode => ConfigCategory::Ui,
        ConfigItem::AlwaysShowAddLocationPrompt | ConfigItem::GlobalDownloadLimit
        | ConfigItem::GlobalUploadLimit => ConfigCategory::Downloads,
    }
}

pub open spec fn label_of(item: ConfigItem) -> Seq<char> {
    match item {
        ConfigItem::ClientPort => "Listen Port"@,
        ConfigItem::DefaultDownloadFolder => "Default Download Folder"@,
        ConfigItem::WatchFolder => "Torrent Watch Folder"@,
        ConfigItem::UiLayoutMode => "Layout"@,
        ConfigItem::AlwaysShowAddLocationPrompt => "Confirm Add Priority And Location"@,
        ConfigItem::GlobalDownloadLimit => "Global Download Limit"@,
        ConfigItem::GlobalUploadLimit => "Global Upload Limit"@,
    }
}

pub open spec fn control_of(item: ConfigItem) -> ConfigControlKind {
    match item {
        ConfigItem::ClientPort => ConfigControlKind::Number,
        ConfigItem::DefaultDownloadFolder | ConfigItem::WatchFolder => ConfigControlKind::Path,
        ConfigItem::UiLayoutMode => ConfigControlKind::Enum,
        ConfigItem::AlwaysShowAddLocationPrompt => ConfigControlKind::Bool,
        ConfigItem::GlobalDownloadLimit
        | ConfigItem::GlobalUploadLimit => ConfigControlKind::RateLimit,
    }
}

pub open spec fn describes(descriptor: ConfigSettingDescriptor, item: ConfigItem) -> bool {
    &&& descriptor.item == item
    &&& descriptor.category == category_of(item)
    &&& descriptor.label@ == label_of(item)
    &&& descriptor.control == control_of(item)
}

/// The settings in the order in which they are described.
pub open spec fn described_items() -> Seq<ConfigItem> {
    seq![
        ConfigItem::ClientPort,
        ConfigItem::DefaultDownloadFolder,
        ConfigItem::WatchFolder,
        ConfigItem::UiLayoutMode,
        ConfigItem::AlwaysShowAddLocationPrompt,
        ConfigItem::GlobalDownloadLimit,
        ConfigItem::GlobalUploadLimit,
    ]
}

/// What the list shows of each setting.
pub fn config_setting_descriptors() -> (descriptors: Vec<ConfigSettingDescriptor>)
    ensures
        descriptors@.len() == described_items().len(),
        forall|k: int|
            0 <= k < descriptors@.len() ==> describes(
                #[trigger] descriptors@[k],
                described_items()[k],
            ),
{
    let mut descriptors: Vec<ConfigSettingDescriptor> = Vec::new();
    descriptors.push(descriptor_for_item(ConfigItem::ClientPort));
    descriptors.push(descriptor_for_item(ConfigItem::DefaultDownloadFolder));
    descriptors.push(descriptor_for_item(ConfigItem::WatchFolder));
    descriptors.push(descriptor_for_item(ConfigItem::UiLayoutMode));
    descriptors.push(descriptor_for_item(ConfigItem::AlwaysShowAddLocationPrompt));
    descriptors.push(descriptor_for_item(ConfigItem::GlobalDownloadLimit));
    descriptors.push(descriptor_for_item(ConfigItem::GlobalUploadLimit));
    descriptors
}

/// Every setting is described.
pub proof fn every_setting_is_described(item: ConfigItem)
    ensures
        described_items().contains(item),
{
    let all = described_items();
    assert(all[0] == ConfigItem::ClientPort);
    assert(all[1] == ConfigItem::DefaultDownloadFolder);
    assert(all[2] == ConfigItem::WatchFolder);
    assert(all[3] == ConfigItem::UiLayoutMode);
    assert(all[4] == ConfigItem::AlwaysShowAddLocationPrompt);
    assert(all[5] == ConfigItem::GlobalDownloadLimit);
    assert(all[6] == ConfigItem::GlobalUploadLimit);
}

/// What the list shows of a setting.
pub fn descriptor_for_item(item: ConfigItem) -> (descriptor: ConfigSettingDescriptor)
    ensures
        describes(descriptor, item),
{
    let (category, label, control) = match item {
        ConfigItem::ClientPort => (
            ConfigCategory::Network,
            "Listen Port",
            ConfigControlKind::Number,
        ),
        ConfigItem::DefaultDownloadFolder => (
            ConfigCategory::Paths,
            "Default Download Folder",
            ConfigControlKind::Path,
        ),
        ConfigItem::WatchFolder => (
            ConfigCategory::Paths,
            "Torrent Watch Folder",
            ConfigControlKind::Path,
        ),
        ConfigItem::UiLayoutMode => (ConfigCategory::Ui, "Layout", ConfigControlKind::Enum),
        ConfigItem::AlwaysShowAddLocationPrompt => (
            ConfigCategory::Downloads,
            "Confirm Add Priority And Location",
            ConfigControlKind::Bool,
        ),
        ConfigItem::GlobalDownloadLimit => (
            ConfigCategory::Downloads,
            "Global Download Limit",
            ConfigControlKind::RateLimit,
        ),
        ConfigItem::GlobalUploadLimit => (
            ConfigCategory::Downloads,
            "Global Upload Limit",
            ConfigControlKind::RateLimit,
        ),
    };
    ConfigSettingDescriptor { item, category, label, control }
}

pub fn config_category_for_item(item: ConfigItem) -> (category: ConfigCategory)
    ensures
        category == category_of(item),
{
    descriptor_for_item(item).category
}

/// The selected setting; a selection beyond the list means the port.
pub open spec fn chosen_item(items: Seq<ConfigItem>, selected_index: int) -> ConfigItem {
    if 0 <= selected_index < items.len() {
        items[selected_index]
    } else {
        ConfigItem::ClientPort
    }
}

/// The selected setting.
pub fn selected_item(items: &[ConfigItem], selected_index: usize) -> (item: ConfigItem)
    ensures
        item == chosen_item(items@, selected_index as int),
{
    if selected_index < items.len() {
        items[selected_index]
    } else {
        ConfigItem::ClientPort
    }
}

// ------------------------------------------------------------------ the rows

/// A row of the list.
#[derive(Clone, Copy, Debug, PartialEq, Eq, Structural)]
pub enum ConfigListRow {
    Category(ConfigCategory),
    Setting { global_index: usize, item: ConfigItem },
}

/// The positions of the settings of one category.
pub open spec fn positions_in(items: Seq<ConfigItem>, category: ConfigCategory) -> Seq<usize> {
    kept(positions(items.len()), |i: usize| category_of(items[i as int]) == category)
}

/// The rows of one category: its name and its settings, or none.
pub open spec fn category_rows(items: Seq<ConfigItem>, category: ConfigCategory) -> Seq<
    ConfigListRow,
> {
    let members = positions_in(items, category);
    if members.len() == 0 {
        Seq::empty()
    } else {
        seq![ConfigListRow::Category(category)] + members.map_values(
            |i: usize| ConfigListRow::Setting { global_index: i, item: items[i as int] },
        )
    }
}

/// The rows of some categories, one after the other.
pub open spec fn rows_of(items: Seq<ConfigItem>, order: Seq<ConfigCategory>) -> Seq<ConfigListRow>
    decreases order.len(),
{
    if order.len() == 0 {
        Seq::empty()
    } else {
        rows_of(items, order.drop_last()) + category_rows(items, order.last())
    }
}

/// The settings in the order of the list.
pub open spec fn indices_of(items: Seq<ConfigItem>, order: Seq<ConfigCategory>) -> Seq<usize>
    decreases order.len(),
{
    if order.len() == 0 {
        Seq::empty()
    } else {
        indices_of(items, order.drop_last()) + positions_in(items, order.last())
    }
}

fn members_of(items: &[ConfigItem], category: ConfigCategory) -> (members: Vec<usize>)
    ensures
        members@ == positions_in(items@, category),
        forall|k: int| 0 <= k < members@.len() ==> #[trigger] members@[k] < items@.len(),
{
    let ghost all = positions(items@.len());
    let ghost test = |i: usize| category_of(items@[i as int]) == category;
    let mut members: Vec<usize> = Vec::new();
    let mut i: usize = 0;
    assert(all.take(0) =~= Seq::<usize>::empty());
    while i < items.len()
        invariant
            i <= items@.len(),
            all == positions(items@.len()),
            test == (|i: usize| category_of(items@[i as int]) == category),
            members@ == kept(all.take(i as int), test),
            forall|k: int| 0 <= k < members@.len() ==> #[trigger] members@[k] < items@.len(),
        decreases items@.len() - i,
    {
        assert(all.take(i + 1).drop_last() =~= all.take(i as int));
        assert(all.take(i + 1).last() == i);
        if config_category_for_item(items[i]) == category {
            members.push(i);
        }
        i = i + 1;
    }
    assert(all.take(i as int) =~= all);
    members
}

/// The rows of the list: the categories that have settings, each with its settings.
pub fn config_list_rows(items: &[ConfigItem]) -> (rows: Vec<ConfigListRow>)
    ensures
        rows@ == rows_of(items@, categories()),
{
    let order = ConfigCategory::all();
    let mut rows: Vec<ConfigListRow> = Vec::new();
    let mut c: usize = 0;
    assert(order@.take(0) =~= Seq::<ConfigCategory>::empty());
    while c < order.len()
        invariant
            c <= order@.len(),
            order@ == categories(),
            rows@ == rows_of(items@, order@.take(c as int)),
        decreases order@.len() - c,
    {
        let category = order[c];
        assert(order@.take(c + 1).drop_last() =~= order@.take(c as int));
        let members = members_of(items, category);
        let ghost before = rows@;
        let ghost f = |i: usize|
            ConfigListRow::Setting { global_index: i, item: items@[i as int] };
        if members.len() > 0 {
            rows.push(ConfigListRow::Category(category));
            let mut k: usize = 0;
            assert(members@.take(0).map_values(f) =~= Seq::<ConfigListRow>::empty());
            while k < members.len()
                invariant
                    k <= members@.len(),
                    f == (|i: usize|
                        ConfigListRow::Setting { global_index: i, item: items@[i as int] }),
                    forall|k: int|
                        0 <= k < members@.len() ==> #[trigger] members@[k] < items@.len(),
                    rows@ == before.push(ConfigListRow::Category(category)) + members@.take(
                        k as int,
                    ).map_values(f),
                decreases members@.len() - k,
            {
                let global_index = members[k];
                let ghost was = rows@;
                rows.push(ConfigListRow::Setting { global_index, item: items[global_index] });
                assert(members@.take(k + 1).map_values(f) =~= members@.take(k as int).map_values(
                    f,
                ).push(f(global_index)));
                assert(rows@ =~= before.push(ConfigListRow::Category(category)) + members@.take(
                    k + 1,
                ).map_values(f));
                k = k + 1;
            }
            assert(members@.take(k as int) =~= members@);
            assert(rows@ =~= before + category_rows(items@, category));
        } else {
            assert(rows@ =~= before + category_rows(items@, category));
        }
        c = c + 1;
    }
    assert(order@.take(c as int) =~= categories());
    rows
}

/// The positions that some rows stand for.
pub open spec fn row_positions(rows: Seq<ConfigListRow>) -> Seq<usize>
    decreases rows.len(),
{
    if rows.len() == 0 {
        Seq::empty()
    } else {
        let head = row_positions(rows.drop_last());
        match rows.last() {
            ConfigListRow::Setting { global_index, .. } => head.push(global_index),
            ConfigListRow::Category(_) => head,
        }
    }
}

proof fn row_positions_of_both(a: Seq<ConfigListRow>, b: Seq<ConfigListRow>)
    ensures
        row_positions(a + b) == row_positions(a) + row_positions(b),
    decreases b.len(),
{
    if b.len() == 0 {
        assert(a + b =~= a);
        assert(row_positions(a) + row_positions(b) =~= row_positions(a));
    } else {
        assert((a + b).drop_last() =~= a + b.drop_last());
        row_positions_of_both(a, b.drop_last());
        assert((a + b).last() == b.last());
        assert(row_positions(a + b) =~= row_positions(a) + row_positions(b));
    }
}

proof fn row_positions_of_members(items: Seq<ConfigItem>, members: Seq<usize>)
    ensures
        row_positions(
            members.map_values(
                |i: usize| ConfigListRow::Setting { global_index: i, item: items[i as int] },
            ),
        ) == members,
    decreases members.len(),
{
    let f = |i: usize| ConfigListRow::Setting { global_index: i, item: items[i as int] };
    if members.len() == 0 {
        assert(row_positions(members.map_values(f)) =~= members);
    } else {
        row_positions_of_members(items, members.drop_last());
        assert(members.map_values(f).drop_last() =~= members.drop_last().map_values(f));
        assert(row_positions(members.map_values(f)) =~= members);
    }
}

proof fn rows_hold_the_settings(items: Seq<ConfigItem>, order: Seq<ConfigCategory>)
    ensures
        row_positions(rows_of(items, order)) == indices_of(items, order),
    decreases order.len(),
{
    if order.len() > 0 {
        rows_hold_the_settings(items, order.drop_last());
        let category = order.last();
        let members = positions_in(items, category);
        let settings = members.map_values(
            |i: usize| ConfigListRow::Setting { global_index: i, item: items[i as int] },
        );
        let name = seq![ConfigListRow::Category(category)];
        row_positions_of_both(rows_of(items, order.drop_last()), category_rows(items, category));
        row_positions_of_both(name, settings);
        row_positions_of_members(items, members);
        reveal_with_fuel(row_positions, 2);
        assert(row_positions(name) =~= Seq::<usize>::empty());
        assert(Seq::<usize>::empty() + members =~= members);
        if members.len() == 0 {
            assert(row_positions(category_rows(items, category)) =~= members);
        }
    }
}

/// The settings in the order of the list.
pub open spec fn listed_settings(items: Seq<ConfigItem>) -> Seq<usize> {
    indices_of(items, categories())
}

/// The settings in the order of the list.
pub fn visible_setting_indices(items: &[ConfigItem]) -> (indices: Vec<usize>)
    ensures
        indices@ == listed_settings(items@),
{
    let rows = config_list_rows(items);
    let mut indices: Vec<usize> = Vec::new();
    let mut k: usize = 0;
    assert(rows@.take(0) =~= Seq::<ConfigListRow>::empty());
    while k < rows.len()
        invariant
            k <= rows@.len(),
            indices@ == row_positions(rows@.take(k as int)),
        decreases rows@.len() - k,
    {
        assert(rows@.take(k + 1).drop_last() =~= rows@.take(k as int));
        if let ConfigListRow::Setting { global_index, .. } = rows[k] {
            indices.push(global_index);
        }
        k = k + 1;
    }
    assert(rows@.take(k as int) =~= rows@);
    proof {
        rows_hold_the_settings(items@, categories());
    }
    indices
}

/// Where a number first occurs in a list.
pub open spec fn place_of(list: Seq<usize>, number: int) -> Option<int>
    decreases list.len(),
{
    if list.len() == 0 {
        None
    } else {
        match place_of(list.drop_last(), number) {
            Some(k) => Some(k),
            None => if list.last() == number {
                Some(list.len() - 1)
            } else {
                None
            },
        }
    }
}

proof fn place_is_first(list: Seq<usize>, number: int)
    ensures
        match place_of(list, number) {
            Some(k) => 0 <= k < list.len() && list[k] == number && forall|j: int|
                0 <= j < k ==> list[j] != number,
            None => forall|j: int| 0 <= j < list.len() ==> list[j] != number,
        },
    decreases list.len(),
{
    if list.len() > 0 {
        place_is_first(list.drop_last(), number);
        assert forall|j: int| 0 <= j < list.len() - 1 implies list.drop_last()[j] == list[j] by {}
    }
}

fn find_place(list: &Vec<usize>, number: usize) -> (place: Option<usize>)
    ensures
        crate::lists::index_of(place) == place_of(list@, number as int),
        place matches Some(k) ==> k < list@.len(),
{
    proof {
        place_is_first(list@, number as int);
    }
    let mut k: usize = 0;
    while k < list.len()
        invariant
            k <= list@.len(),
            forall|j: int| 0 <= j < k ==> list@[j] != number,
        decreases list@.len() - k,
    {
        proof {
            place_is_first(list@, number as int);
        }
        if list[k] == number {
            return Some(k);
        }
        k = k + 1;
    }
    None
}

/// The setting below a setting, or the same at the end of the list.
pub open spec fn setting_below(items: Seq<ConfigItem>, selected: int) -> int {
    let listed = listed_settings(items);
    match place_of(listed, selected) {
        Some(k) => if k + 1 < listed.len() {
            listed[k + 1] as int
        } else {
            selected
        },
        None => selected,
    }
}

/// The setting above a setting, or the same at the top of the list.
pub open spec fn setting_above(items: Seq<ConfigItem>, selected: int) -> int {
    let listed = listed_settings(items);
    match place_of(listed, selected) {
        Some(k) => if k > 0 {
            listed[k - 1] as int
        } else {
            selected
        },
        None => selected,
    }
}

/// The setting below a setting.
pub fn next_visible_setting_index(items: &[ConfigItem], selected_index: usize) -> (index: usize)
    ensures
        index == setting_below(items@, selected_index as int),
{
    let visible_indices = visible_setting_indices(items);
    match find_place(&visible_indices, selected_index) {
        Some(k) => if k < visible_indices.len() - 1 {
            visible_indices[k + 1]
        } else {
            selected_index
        },
        None => selected_index,
    }
}

/// The setting above a setting.
pub fn previous_visible_setting_index(items: &[ConfigItem], selected_index: usize) -> (index: usize)
    ensures
        index == setting_above(items@, selected_index as int),
{
    let visible_indices = visible_setting_indices(items);
    match find_place(&visible_indices, selected_index) {
        Some(k) => if k > 0 {
            visible_indices[k - 1]
        } else {
            selected_index
        },
        None => selected_index,
    }
}

// ------------------------------------------------------------------ the laws

proof fn members_are_those_of_the_category(items: Seq<ConfigItem>, category: ConfigCategory, i: usize)
    requires
        items.len() <= usize::MAX,
    ensures
        positions_in(items, category).contains(i) <==> i < items.len() && category_of(
            items[i as int],
        ) == category,
        positions_in(items, category).no_duplicates(),
{
    let all = positions(items.len());
    let test = |i: usize| category_of(items[i as int]) == category;
    kept_contains(all, test);
    kept_no_duplicates(all, test);
    if i < items.len() {
        assert(all[i as int] == i);
    }
    assert(kept(all, test).contains(i) <==> all.contains(i) && test(i));
}

proof fn indices_are_those_of_the_categories(
    items: Seq<ConfigItem>,
    order: Seq<ConfigCategory>,
)
    requires
        items.len() <= usize::MAX,
        order.no_duplicates(),
    ensures
        indices_of(items, order).no_duplicates(),
        forall|i: usize| #[trigger]
            indices_of(items, order).contains(i) <==> i < items.len() && order.contains(
                category_of(items[i as int]),
            ),
    decreases order.len(),
{
    if order.len() > 0 {
        let head = order.drop_last();
        let last = order.last();
        indices_are_those_of_the_categories(items, head);
        let a = indices_of(items, head);
        let b = positions_in(items, last);
        assert forall|c: ConfigCategory| #[trigger]
            order.contains(c) <==> head.contains(c) || c == last by {
            if head.contains(c) {
                let k = choose|k: int| 0 <= k < head.len() && head[k] == c;
                assert(order[k] == c);
            }
            if c == last {
                assert(order[order.len() - 1] == c);
            }
            if order.contains(c) && c != last {
                let k = choose|k: int| 0 <= k < order.len() && order[k] == c;
                assert(head[k] == c);
            }
        }
        assert(!head.contains(last));
        members_are_those_of_the_category(items, last, 0);
        assert forall|i: usize| #[trigger]
            (a + b).contains(i) <==> i < items.len() && order.contains(
                category_of(items[i as int]),
            ) by {
            members_are_those_of_the_category(items, last, i);
            if a.contains(i) {
                let k = choose|k: int| 0 <= k < a.len() && a[k] == i;
                assert((a + b)[k] == i);
            }
            if b.contains(i) {
                let k = choose|k: int| 0 <= k < b.len() && b[k] == i;
                assert((a + b)[a.len() + k] == i);
            }
            if (a + b).contains(i) && !a.contains(i) {
                let k = choose|k: int| 0 <= k < (a + b).len() && (a + b)[k] == i;
                if k < a.len() {
                    assert(a[k] == i);
                } else {
                    assert(b[k - a.len()] == i);
                }
            }
        }
        assert forall|j: int, k: int| 0 <= j < k < (a + b).len() implies (a + b)[j] != (a + b)[k] by {
            if j < a.len() && k >= a.len() {
                let x = a[j];
                assert(a.contains(x));
                let y = b[k - a.len()];
                assert(b.contains(y));
                members_are_those_of_the_category(items, last, y);
            }
        }
    } else {
        assert(indices_of(items, order) =~= Seq::<usize>::empty());
    }
}

/// The list shows every setting once.
pub proof fn every_setting_is_listed_once(items: Seq<ConfigItem>)
    requires
        items.len() <= usize::MAX,
    ensures
        listed_settings(items).no_duplicates(),
        forall|i: usize| #[trigger] listed_settings(items).contains(i) <==> i < items.len(),
{
    let order = categories();
    assert forall|j: int, k: int| 0 <= j < k < order.len() implies order[j] != order[k] by {}
    indices_are_those_of_the_categories(items, order);
    assert forall|c: ConfigCategory| order.contains(c) by {
        assert(order[0] == ConfigCategory::Network);
        assert(order[1] == ConfigCategory::Paths);
        assert(order[2] == ConfigCategory::Downloads);
        assert(order[3] == ConfigCategory::Ui);
    }
}

/// A listed setting is at its place in the list and at no other.
pub proof fn listed_places(items: Seq<ConfigItem>, k: int)
    requires
        items.len() <= usize::MAX,
        0 <= k < listed_settings(items).len(),
    ensures
        place_of(listed_settings(items), listed_settings(items)[k] as int) == Some(k),
{
    every_setting_is_listed_once(items);
    place_is_first(listed_settings(items), listed_settings(items)[k] as int);
}

/// Moving through the list stays on a setting, and moving back undoes a move that
/// went anywhere.
pub proof fn moving_stays_on_a_setting_and_can_be_undone(items: Seq<ConfigItem>, selected: int)
    requires
        items.len() <= usize::MAX,
        0 <= selected < items.len(),
    ensures
        0 <= setting_below(items, selected) < items.len(),
        0 <= setting_above(items, selected) < items.len(),
        setting_below(items, selected) != selected ==> setting_above(
            items,
            setting_below(items, selected),
        ) == selected,
        setting_above(items, selected) != selected ==> setting_below(
            items,
            setting_above(items, selected),
        ) == selected,
{
    let listed = listed_settings(items);
    every_setting_is_listed_once(items);
    place_is_first(listed, selected);
    assert(listed.contains(selected as usize));
    let place = place_of(listed, selected);
    assert(place is Some);
    let k = place->0;
    if k + 1 < listed.len() {
        assert(listed.contains(listed[k + 1]));
        place_is_first(listed, listed[k + 1] as int);
    }
    if k > 0 {
        assert(listed.contains(listed[k - 1]));
        place_is_first(listed, listed[k - 1] as int);
    }
}

} // verus!
