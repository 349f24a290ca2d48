//! The footers of torrent management, and the summary of the review.
use crate::app::{AppState, ManagementView, ReviewView, TorrentManagementReviewCache};
use crate::geometry::monus;
use crate::text::{
    decimal, format_number, join, join3, middle_shortened, owned, terminal_text_width, text_width,
    truncate_middle_with_ellipsis,
};
use crate::tui::action_style::ActionTone;
use crate::tui::screens::torrents::panel::{
    management_review_compact_visible_range, management_review_visible_range, range_text,
};
use crate::tui::screens::torrents::review::{
    capped_size, pending_management_review_total, ManagementReviewAction, ManagementReviewRegions,
};
use crate::tui::screens::torrents::{management_search_panel_active, search_panel};
use vstd::prelude::*;
use vstd::string::{StrSliceExecFns, StringExecFns};

verus! {

/// A key in a footer, with what stands in front of it and what it does.
pub struct FooterItem {
    pub separator: &'static str,
    pub key: String,
    pub label: String,
    pub tone: ActionTone,
}

#[verifier::ext_equal]
pub struct FooterView {
    pub separator: Seq<char>,
    pub key: Seq<char>,
    pub label: Seq<char>,
    pub tone: ActionTone,
}

impl View for FooterItem {
    type V = FooterView;

    open spec fn view(&self) -> FooterView {
        FooterView {
            separator: self.separator@,
            key: self.key@,
            label: self.label@,
            tone: self.tone,
        }
    }
}

pub open spec fn footer_views(items: Seq<FooterItem>) -> Seq<FooterView> {
    items.map_values(|item: FooterItem| item@)
}

/// A footer while it is filled: the keys so far and the columns they take up.
#[verifier::ext_equal]
pub struct Footer {
    pub items: Seq<FooterView>,
    pub used: int,
}

/// What stands between the keys so far and one more: nothing before the first
/// one, and a space before a key without a label.
pub open spec fn separator(used: int, label: Seq<char>) -> Seq<char> {
    if used == 0 {
        ""@
    } else if label.len() == 0 {
        " "@
    } else {
        " | "@
    }
}

/// The columns of the separator.
pub open spec fn separator_width(used: int, label: Seq<char>) -> int {
    if used == 0 {
        0
    } else if label.len() == 0 {
        1
    } else {
        3
    }
}

/// The columns that one more key would bring the footer to.
pub open spec fn width_with(used: int, key: Seq<char>, label: Seq<char>) -> int {
    used + separator_width(used, label) + key.len() + 2 + label.len()
}

/// A footer with one more key in brackets, if that fits.
pub open spec fn pushed(
    footer: Footer,
    max_width: int,
    key: Seq<char>,
    label: Seq<char>,
    tone: ActionTone,
) -> Footer {
    if width_with(footer.used, key, label) <= max_width {
        Footer {
            items: footer.items.push(
                FooterView {
                    separator: separator(footer.used, label),
                    key: "["@ + key + "]"@,
                    label,
                    tone,
                },
            ),
            used: width_with(footer.used, key, label),
        }
    } else {
        footer
    }
}

/// Puts one more key into a footer if it fits, and says whether it does.
pub fn try_push_management_footer_action(
    items: &mut Vec<FooterItem>,
    used_width: &mut usize,
    max_width: usize,
    key: &str,
    label: &str,
    tone: ActionTone,
) -> (done: bool)
    requires
        max_width < usize::MAX || width_with(*old(used_width) as int, key@, label@) <= usize::MAX,
    ensures
        ({
            let before = Footer {
                items: footer_views(old(items)@),
                used: *old(used_width) as int,
            };
            &&& done == (width_with(*old(used_width) as int, key@, label@) <= max_width)
            &&& (Footer { items: footer_views(final(items)@), used: *final(used_width) as int })
                == pushed(before, max_width as int, key@, label@, tone)
            &&& *old(used_width) <= max_width ==> *final(used_width) <= max_width
        }),
{
    let key_text = join3("[", key, "]");
    let separator_text: &'static str = if *used_width == 0 {
        ""
    } else if label.is_empty() {
        " "
    } else {
        " | "
    };
    let separator_width: usize = if *used_width == 0 {
        0
    } else if label.is_empty() {
        1
    } else {
        3
    };
    let item_width: usize = key.unicode_len().saturating_add(2).saturating_add(
        label.unicode_len(),
    );
    if used_width.saturating_add(separator_width).saturating_add(item_width) > max_width {
        return false;
    }
    let ghost was = footer_views(items@);
    let item = FooterItem { separator: separator_text, key: key_text, label: owned(label), tone };
    let ghost view = item@;
    items.push(item);
    assert(footer_views(items@) =~= was.push(view));
    *used_width = *used_width + separator_width + item_width;
    true
}

/// A key that a footer is to show: if there is no room for its label, some are
/// shown without.
pub struct PlannedKey {
    pub key: &'static str,
    pub label: &'static str,
    pub tone: ActionTone,
    pub key_only_fallback: bool,
}

#[verifier::ext_equal]
pub struct PlanView {
    pub key: Seq<char>,
    pub label: Seq<char>,
    pub tone: ActionTone,
    pub key_only_fallback: bool,
}

impl View for PlannedKey {
    type V = PlanView;

    open spec fn view(&self) -> PlanView {
        PlanView {
            key: self.key@,
            label: self.label@,
            tone: self.tone,
            key_only_fallback: self.key_only_fallback,
        }
    }
}

pub open spec fn plan_views(plan: Seq<PlannedKey>) -> Seq<PlanView> {
    plan.map_values(|key: PlannedKey| key@)
}

pub open spec fn planned(
    key: Seq<char>,
    label: Seq<char>,
    tone: ActionTone,
    key_only_fallback: bool,
) -> PlanView {
    PlanView { key, label, tone, key_only_fallback }
}

/// A footer filled with planned keys, one after the other.
pub open spec fn filled(plan: Seq<PlanView>, max_width: int) -> Footer
    decreases plan.len(),
{
    if plan.len() == 0 {
        Footer { items: Seq::empty(), used: 0 }
    } else {
        let footer = filled(plan.drop_last(), max_width);
        let next = plan.last();
        if width_with(footer.used, next.key, next.label) > max_width && next.key_only_fallback {
            pushed(footer, max_width, next.key, Seq::empty(), next.tone)
        } else {
            pushed(footer, max_width, next.key, next.label, next.tone)
        }
    }
}

/// A footer is never wider than its area.
pub proof fn a_filled_footer_fits(plan: Seq<PlanView>, max_width: int)
    requires
        0 <= max_width,
    ensures
        0 <= filled(plan, max_width).used <= max_width,
    decreases plan.len(),
{
    if plan.len() > 0 {
        a_filled_footer_fits(plan.drop_last(), max_width);
    }
}

fn fill_footer(plan: &Vec<PlannedKey>, width: u16) -> (items: Vec<FooterItem>)
    requires
        forall|k: int|
            0 <= k < plan@.len() ==> (#[trigger] plan@[k]).key@.len() <= 1000 && plan@[k].label@.len()
                <= 1000,
    ensures
        footer_views(items@) == filled(plan_views(plan@), width as int).items,
{
    let ghost all = plan_views(plan@);
    let max_width: usize = width as usize;
    let mut items: Vec<FooterItem> = Vec::new();
    let mut used_width: usize = 0;
    assert(footer_views(items@) =~= Seq::<FooterView>::empty());
    assert(all.take(0) =~= Seq::<PlanView>::empty());
    let mut k: usize = 0;
    while k < plan.len()
        invariant
            k <= plan@.len(),
            all == plan_views(plan@),
            max_width == width,
            used_width <= max_width,
            forall|k: int|
                0 <= k < plan@.len() ==> (#[trigger] plan@[k]).key@.len() <= 1000
                    && plan@[k].label@.len() <= 1000,
            filled(all.take(k as int), width as int) == (Footer {
                items: footer_views(items@),
                used: used_width as int,
            }),
        decreases plan@.len() - k,
    {
        proof {
            assert(all.take(k + 1).drop_last() =~= all.take(k as int));
            assert(all.take(k + 1).last() == plan@[k as int]@);
            reveal_strlit("");
            assert(""@ =~= Seq::<char>::empty());
        }
        let next = &plan[k];
        let done = try_push_management_footer_action(
            &mut items,
            &mut used_width,
            max_width,
            next.key,
            next.label,
            next.tone,
        );
        if !done && next.key_only_fallback {
            let _ = try_push_management_footer_action(
                &mut items,
                &mut used_width,
                max_width,
                next.key,
                "",
                next.tone,
            );
        }
        k = k + 1;
    }
    assert(all.take(k as int) =~= all);
    items
}

pub open spec fn label_unless(compact: bool, label: Seq<char>) -> Seq<char> {
    if compact {
        ""@
    } else {
        label
    }
}

/// The keys of the footer under the table, in the order in which they are given
/// room. Where it is narrow the main keys have no labels.
pub open spec fn footer_plan(tm: ManagementView, width: int) -> Seq<PlanView> {
    if tm.is_searching {
        seq![
            planned("Esc"@, "clear"@, ActionTone::Cancel, true),
            planned("Enter"@, "apply"@, ActionTone::Confirm, true),
            planned("Tab"@, "mode"@, ActionTone::Mode, true),
        ]
    } else {
        let drafted = tm.pending_commands.len() > 0;
        let compact = width < if drafted {
            95int
        } else {
            77
        };
        seq![planned("Esc"@, label_unless(compact, "back"@), ActionTone::Cancel, true)] + (
        if drafted {
            seq![planned("Y"@, label_unless(compact, "review"@), ActionTone::Confirm, true)]
        } else {
            Seq::empty()
        }) + seq![
            planned("u"@, label_unless(compact, "clear"@), ActionTone::Clear, true),
            planned("Space"@, label_unless(compact, "select"@), ActionTone::Select, true),
            planned("A"@, label_unless(compact, "all"@), ActionTone::Select, true),
            planned("p"@, label_unless(compact, "pause"@), ActionTone::Queue, true),
            planned(
                "d/D"@,
                label_unless(compact, "remove/purge"@),
                ActionTone::Destructive,
                true,
            ),
            planned("arrows"@, "nav"@, ActionTone::Navigate, false),
            planned("s"@, "sort"@, ActionTone::Sort, false),
            planned("f"@, "files"@, ActionTone::Navigate, false),
            planned("/"@, "search"@, ActionTone::Search, false),
        ] + (if search_panel(tm) {
            seq![planned("Tab"@, "mode"@, ActionTone::Mode, false)]
        } else {
            Seq::empty()
        }) + seq![planned("x"@, "names"@, ActionTone::Toggle, false)]
    }
}

fn plan_key(
    key: &'static str,
    label: &'static str,
    tone: ActionTone,
    key_only_fallback: bool,
) -> (planned: PlannedKey)
    ensures
        planned@ == self::planned(key@, label@, tone, key_only_fallback),
        planned.key@ == key@,
        planned.label@ == label@,
{
    PlannedKey { key, label, tone, key_only_fallback }
}

fn core_label(compact: bool, label: &'static str) -> (shown: &'static str)
    ensures
        shown@ == label_unless(compact, label@),
{
    if compact {
        ""
    } else {
        label
    }
}

/// The footer under the table.
pub fn management_footer(app_state: &AppState, width: u16) -> (items: Vec<FooterItem>)
    ensures
        footer_views(items@) == filled(
            footer_plan(app_state.management().tm, width as int),
            width as int,
        ).items,
{
    let ghost tm = app_state.management().tm;
    let mut plan: Vec<PlannedKey> = Vec::new();
    if app_state.ui.torrent_management.is_searching {
        plan.push(plan_key("Esc", "clear", ActionTone::Cancel, true));
        plan.push(plan_key("Enter", "apply", ActionTone::Confirm, true));
        plan.push(plan_key("Tab", "mode", ActionTone::Mode, true));
    } else {
        let has_pending = app_state.ui.torrent_management.pending_commands.len() > 0;
        assert(tm.pending_commands.len()
            == app_state.ui.torrent_management.pending_commands@.len());
        let compact = width < if has_pending {
            95
        } else {
            77
        };
        plan.push(plan_key("Esc", core_label(compact, "back"), ActionTone::Cancel, true));
        if has_pending {
            plan.push(plan_key("Y", core_label(compact, "review"), ActionTone::Confirm, true));
        }
        plan.push(plan_key("u", core_label(compact, "clear"), ActionTone::Clear, true));
        plan.push(plan_key("Space", core_label(compact, "select"), ActionTone::Select, true));
        plan.push(plan_key("A", core_label(compact, "all"), ActionTone::Select, true));
        plan.push(plan_key("p", core_label(compact, "pause"), ActionTone::Queue, true));
        plan.push(
            plan_key("d/D", core_label(compact, "remove/purge"), ActionTone::Destructive, true),
        );
        plan.push(plan_key("arrows", "nav", ActionTone::Navigate, false));
        plan.push(plan_key("s", "sort", ActionTone::Sort, false));
        plan.push(plan_key("f", "files", ActionTone::Navigate, false));
        plan.push(plan_key("/", "search", ActionTone::Search, false));
        if management_search_panel_active(app_state) {
            plan.push(plan_key("Tab", "mode", ActionTone::Mode, false));
        }
        plan.push(plan_key("x", "names", ActionTone::Toggle, false));
    }
    proof {
        footer_literals();
        assert(plan_views(plan@) =~= footer_plan(tm, width as int));
        assert forall|k: int| 0 <= k < plan@.len() implies (#[trigger] plan@[k]).key@.len() <= 1000
            && plan@[k].label@.len() <= 1000 by {
            assert(plan_views(plan@)[k] == plan@[k]@);
            footer_plan_is_short(tm, width as int, k);
        }
    }
    fill_footer(&plan, width)
}

proof fn footer_literals()
    ensures
        ""@.len() == 0,
{
    reveal_strlit("");
}

proof fn footer_plan_is_short(tm: ManagementView, width: int, k: int)
    requires
        0 <= k < footer_plan(tm, width).len(),
    ensures
        footer_plan(tm, width)[k].key.len() <= 1000,
        footer_plan(tm, width)[k].label.len() <= 1000,
{
    reveal_strlit("");
    reveal_strlit("Esc");
    reveal_strlit("Enter");
    reveal_strlit("Tab");
    reveal_strlit("Y");
    reveal_strlit("u");
    reveal_strlit("Space");
    reveal_strlit("A");
    reveal_strlit("p");
    reveal_strlit("d/D");
    reveal_strlit("arrows");
    reveal_strlit("s");
    reveal_strlit("f");
    reveal_strlit("/");
    reveal_strlit("x");
    reveal_strlit("clear");
    reveal_strlit("apply");
    reveal_strlit("mode");
    reveal_strlit("back");
    reveal_strlit("review");
    reveal_strlit("select");
    reveal_strlit("all");
    reveal_strlit("pause");
    reveal_strlit("remove/purge");
    reveal_strlit("nav");
    reveal_strlit("sort");
    reveal_strlit("files");
    reveal_strlit("search");
    reveal_strlit("names");
}

// -------------------------------------------------------- the review's footer

/// The footer of a review with so many changes. Where it is narrow it has no
/// labels and clearing comes last; `Enter` is shown as an arrow if it does not
/// fit.
pub open spec fn review_footer(total: int, compact: bool, max_width: int) -> Footer {
    let empty = Footer { items: Seq::empty(), used: 0 };
    let esc = pushed(
        empty,
        max_width,
        "Esc"@,
        label_unless(compact, "cancel"@),
        ActionTone::Cancel,
    );
    let clear = if compact {
        esc
    } else {
        pushed(esc, max_width, "u"@, "clear"@, ActionTone::Clear)
    };
    let finalize = label_unless(compact, "finalize "@ + decimal(total as nat));
    let enter = if width_with(clear.used, "Enter"@, finalize) <= max_width {
        pushed(clear, max_width, "Enter"@, finalize, ActionTone::Confirm)
    } else {
        pushed(clear, max_width, "↵"@, ""@, ActionTone::Confirm)
    };
    if compact {
        pushed(enter, max_width, "u"@, ""@, ActionTone::Clear)
    } else {
        enter
    }
}

/// What is shown behind the keys: a label as far as there is room, and whether a
/// space comes first.
pub open spec fn trailing(used: int, max_width: int, label: Option<Seq<char>>) -> Option<
    (bool, Seq<char>),
> {
    match label {
        None => None,
        Some(label) => {
            let gap = if used > 0 {
                1int
            } else {
                0
            };
            let room = monus(monus(max_width, used), gap);
            if room > 0 {
                Some((gap > 0, middle_shortened(label, room as usize)))
            } else {
                None
            }
        },
    }
}

pub open spec fn trailing_view(text: Option<(bool, String)>) -> Option<(bool, Seq<char>)> {
    match text {
        Some((gap, text)) => Some((gap, text@)),
        None => None,
    }
}

proof fn decimal_is_short(n: nat)
    requires
        n <= u64::MAX,
    ensures
        decimal(n).len() <= 20,
{
    reveal_with_fuel(decimal, 21);
}

/// The footer of a review, and what is shown behind its keys.
pub fn management_review_action_footer(
    width: u16,
    total: usize,
    compact: bool,
    trailing_label: Option<&str>,
) -> (footer: (Vec<FooterItem>, Option<(bool, String)>))
    ensures
        footer_views(footer.0@) == review_footer(total as int, compact, width as int).items,
        trailing_view(footer.1) == trailing(
            review_footer(total as int, compact, width as int).used,
            width as int,
            crate::tui::screens::torrents::panel::str_view(trailing_label),
        ),
{
    let max_width: usize = width as usize;
    let mut items: Vec<FooterItem> = Vec::new();
    let mut used_width: usize = 0;
    assert(footer_views(items@) =~= Seq::<FooterView>::empty());
    proof {
        reveal_strlit("Esc");
        reveal_strlit("cancel");
        reveal_strlit("u");
        reveal_strlit("clear");
        reveal_strlit("Enter");
        reveal_strlit("↵");
        reveal_strlit("finalize ");
        reveal_strlit("");
        decimal_is_short(total as nat);
    }
    let _ = try_push_management_footer_action(
        &mut items,
        &mut used_width,
        max_width,
        "Esc",
        core_label(compact, "cancel"),
        ActionTone::Cancel,
    );
    if !compact {
        let _ = try_push_management_footer_action(
            &mut items,
            &mut used_width,
            max_width,
            "u",
            "clear",
            ActionTone::Clear,
        );
    }
    let finalize_label = if compact {
        owned("")
    } else {
        join("finalize ", format_number(total as u64).as_str())
    };
    if !try_push_management_footer_action(
        &mut items,
        &mut used_width,
        max_width,
        "Enter",
        finalize_label.as_str(),
        ActionTone::Confirm,
    ) {
        let _ = try_push_management_footer_action(
            &mut items,
            &mut used_width,
            max_width,
            "↵",
            "",
            ActionTone::Confirm,
        );
    }
    if compact {
        let _ = try_push_management_footer_action(
            &mut items,
            &mut used_width,
            max_width,
            "u",
            "",
            ActionTone::Clear,
        );
    }
    let behind = match trailing_label {
        None => None,
        Some(label) => {
            let gap: usize = if used_width > 0 {
                1
            } else {
                0
            };
            let room: usize = max_width.saturating_sub(used_width).saturating_sub(gap);
            if room > 0 {
                Some((gap > 0, truncate_middle_with_ellipsis(label, room)))
            } else {
                None
            }
        },
    };
    (items, behind)
}

/// The line above the review's footer: which lines are on view, or that all are.
pub open spec fn navigation_text(
    compact: bool,
    scroll: int,
    body_height: int,
    lines: int,
    total: int,
) -> Seq<char> {
    let overflow = lines > body_height;
    if compact && overflow {
        range_text(scroll, body_height, lines, "↕0/0"@, "↕"@, "/"@) + "  [j/k] scroll"@
    } else if compact {
        "All "@ + decimal(total as nat) + " changes visible"@
    } else if overflow {
        range_text(scroll, body_height, lines, "0 / 0"@, ""@, " / "@)
            + "  [j/k] Scroll  [PgUp/PgDn] Page  [Home/End] Jump"@
    } else {
        "All "@ + decimal(total as nat) + " queued changes visible"@
    }
}

/// The line above the review's footer, shortened to the width of the footer.
pub fn management_review_navigation(
    regions: ManagementReviewRegions,
    scroll_offset: usize,
    line_count: usize,
    total: usize,
) -> (text: String)
    ensures
        text@ == middle_shortened(
            navigation_text(
                regions.compact,
                scroll_offset as int,
                regions.body.height as int,
                line_count as int,
                total as int,
            ),
            regions.footer.width as usize,
        ),
{
    let height: usize = regions.body.height as usize;
    let overflow = line_count > height;
    let text = if regions.compact && overflow {
        join(
            management_review_compact_visible_range(scroll_offset, height, line_count).as_str(),
            "  [j/k] scroll",
        )
    } else if regions.compact {
        join3("All ", format_number(total as u64).as_str(), " changes visible")
    } else if overflow {
        join(
            management_review_visible_range(scroll_offset, height, line_count).as_str(),
            "  [j/k] Scroll  [PgUp/PgDn] Page  [Home/End] Jump",
        )
    } else {
        join3("All ", format_number(total as u64).as_str(), " queued changes visible")
    };
    truncate_middle_with_ellipsis(text.as_str(), regions.footer.width as usize)
}

// ---------------------------------------------------------- the review's summary

/// The three ways to say that files will be deleted, the longest first.
pub open spec fn purge_labels(count: int, size: Seq<char>) -> Seq<Seq<char>> {
    let head = "PURGE "@ + decimal(count as nat);
    seq![
        head + " • DELETE FILES • "@ + size,
        head + " • FILES • "@ + size,
        head + " • FILES"@,
    ]
}

/// That files will be deleted, in the longest way that fits.
pub open spec fn purge_label(count: int, size: Seq<char>, max_width: usize) -> Seq<char> {
    let labels = purge_labels(count, size);
    if text_width(labels[0]) <= max_width {
        labels[0]
    } else if text_width(labels[1]) <= max_width {
        labels[1]
    } else if text_width(labels[2]) <= max_width {
        labels[2]
    } else {
        middle_shortened(labels[2], max_width)
    }
}

/// That files will be deleted, in the longest way that fits.
pub fn management_review_compact_purge_safety_label(
    groups: &TorrentManagementReviewCache,
    purge_size: &str,
    max_width: usize,
) -> (label: String)
    ensures
        label@ == purge_label(groups@.purge.len() as int, purge_size@, max_width),
{
    let head = join("PURGE ", format_number(groups.purge.len() as u64).as_str());
    let long = join3(head.as_str(), " • DELETE FILES • ", purge_size);
    if terminal_text_width(long.as_str()) <= max_width {
        return long;
    }
    let medium = join3(head.as_str(), " • FILES • ", purge_size);
    if terminal_text_width(medium.as_str()) <= max_width {
        return medium;
    }
    let short = join(head.as_str(), " • FILES");
    if terminal_text_width(short.as_str()) <= max_width {
        return short;
    }
    truncate_middle_with_ellipsis(short.as_str(), max_width)
}

/// The first line of the summary where it is narrow or low.
pub open spec fn compact_summary(
    review: ReviewView,
    size: Seq<char>,
    total: int,
    height: int,
    width: usize,
) -> Seq<char> {
    let queued = decimal(total as nat) + " queued"@;
    middle_shortened(
        if review.purge.len() > 0 && height == 1 {
            purge_label(review.purge.len() as int, size, width)
        } else if review.purge.len() > 0 {
            queued + " • Purge "@ + decimal(review.purge.len())
        } else if review.delete.len() > 0 {
            queued + " • Remove "@ + decimal(review.delete.len())
        } else {
            queued
        },
        width,
    )
}

/// The first line of the summary where it is narrow or low.
pub fn management_review_compact_summary(
    groups: &TorrentManagementReviewCache,
    purge_size: &str,
    height: u16,
    width: u16,
) -> (label: String)
    ensures
        label@ == compact_summary(
            groups@,
            purge_size@,
            capped_size(
                (groups@.pause.len() + groups@.resume.len() + groups@.delete.len()
                    + groups@.purge.len()) as int,
            ),
            height as int,
            width as usize,
        ),
{
    let total = pending_management_review_total(groups);
    let queued = join(format_number(total as u64).as_str(), " queued");
    let label = if groups.purge.len() > 0 && height == 1 {
        management_review_compact_purge_safety_label(groups, purge_size, width as usize)
    } else if groups.purge.len() > 0 {
        join3(queued.as_str(), " • Purge ", format_number(groups.purge.len() as u64).as_str())
    } else if groups.delete.len() > 0 {
        join3(queued.as_str(), " • Remove ", format_number(groups.delete.len() as u64).as_str())
    } else {
        queued
    };
    truncate_middle_with_ellipsis(label.as_str(), width as usize)
}

/// One entry of the summary: how many changes of a kind, or of all.
pub struct SummaryItem {
    pub separator: &'static str,
    pub label: String,
    pub action: Option<ManagementReviewAction>,
}

#[verifier::ext_equal]
pub struct SummaryView {
    pub separator: Seq<char>,
    pub label: Seq<char>,
    pub action: Option<ManagementReviewAction>,
}

impl View for SummaryItem {
    type V = SummaryView;

    open spec fn view(&self) -> SummaryView {
        SummaryView { separator: self.separator@, label: self.label@, action: self.action }
    }
}

pub open spec fn summary_views(items: Seq<SummaryItem>) -> Seq<SummaryView> {
    items.map_values(|item: SummaryItem| item@)
}

pub open spec fn entry_separator(used: int) -> Seq<char> {
    if used == 0 {
        ""@
    } else {
        "  "@
    }
}

/// The summary with one more entry, if that fits.
pub open spec fn entry_pushed(
    items: Seq<SummaryView>,
    used: int,
    max_width: int,
    label: Seq<char>,
    action: Option<ManagementReviewAction>,
) -> (Seq<SummaryView>, int) {
    let separator = entry_separator(used);
    let width = capped_size(text_width(separator) + text_width(label));
    if capped_size(used + width) > max_width {
        (items, used)
    } else {
        (items.push(SummaryView { separator, label, action }), capped_size(used + width))
    }
}

/// Puts one more entry into the summary if it fits.
pub fn push_management_review_summary_item(
    items: &mut Vec<SummaryItem>,
    used_width: &mut usize,
    max_width: usize,
    label: &str,
    action: Option<ManagementReviewAction>,
)
    ensures
        (summary_views(final(items)@), *final(used_width) as int) == entry_pushed(
            summary_views(old(items)@),
            *old(used_width) as int,
            max_width as int,
            label@,
            action,
        ),
{
    let separator: &'static str = if *used_width == 0 {
        ""
    } else {
        "  "
    };
    let item_width = terminal_text_width(separator).saturating_add(terminal_text_width(label));
    if used_width.saturating_add(item_width) > max_width {
        return;
    }
    let ghost was = summary_views(items@);
    let item = SummaryItem { separator, label: owned(label), action };
    let ghost view = item@;
    items.push(item);
    assert(summary_views(items@) =~= was.push(view));
    *used_width = used_width.saturating_add(item_width);
}

pub open spec fn count_pushed(
    entries: (Seq<SummaryView>, int),
    max_width: int,
    name: Seq<char>,
    count: nat,
    action: ManagementReviewAction,
) -> (Seq<SummaryView>, int) {
    if count > 0 {
        entry_pushed(
            entries.0,
            entries.1,
            max_width,
            name + " "@ + decimal(count),
            Some(action),
        )
    } else {
        entries
    }
}

/// The entries of the summary where there is room: all changes, and then those of
/// each kind that occurs, the most destructive first.
pub open spec fn wide_summary(review: ReviewView, total: int, max_width: int) -> Seq<SummaryView> {
    let all = entry_pushed(
        Seq::empty(),
        0,
        max_width,
        decimal(total as nat) + " queued"@,
        None,
    );
    let purge = count_pushed(
        all,
        max_width,
        "Purge"@,
        review.purge.len(),
        ManagementReviewAction::Purge,
    );
    let remove = count_pushed(
        purge,
        max_width,
        "Remove"@,
        review.delete.len(),
        ManagementReviewAction::Remove,
    );
    let pause = count_pushed(
        remove,
        max_width,
        "Pause"@,
        review.pause.len(),
        ManagementReviewAction::Pause,
    );
    count_pushed(
        pause,
        max_width,
        "Resume"@,
        review.resume.len(),
        ManagementReviewAction::Resume,
    ).0
}

fn push_count(
    items: &mut Vec<SummaryItem>,
    used_width: &mut usize,
    max_width: usize,
    name: &str,
    count: usize,
    action: ManagementReviewAction,
)
    ensures
        (summary_views(final(items)@), *final(used_width) as int) == count_pushed(
            (summary_views(old(items)@), *old(used_width) as int),
            max_width as int,
            name@,
            count as nat,
            action,
        ),
{
    if count > 0 {
        let label = join3(name, " ", format_number(count as u64).as_str());
        push_management_review_summary_item(
            items,
            used_width,
            max_width,
            label.as_str(),
            Some(action),
        );
    }
}

/// The entries of the summary where there is room.
pub fn management_review_summary_items(
    groups: &TorrentManagementReviewCache,
    max_width: usize,
) -> (items: Vec<SummaryItem>)
    ensures
        summary_views(items@) == wide_summary(
            groups@,
            capped_size(
                (groups@.pause.len() + groups@.resume.len() + groups@.delete.len()
                    + groups@.purge.len()) as int,
            ),
            max_width as int,
        ),
{
    let total = pending_management_review_total(groups);
    let mut items: Vec<SummaryItem> = Vec::new();
    let mut used_width: usize = 0;
    assert(summary_views(items@) =~= Seq::<SummaryView>::empty());
    let queued = join(format_number(total as u64).as_str(), " queued");
    push_management_review_summary_item(
        &mut items,
        &mut used_width,
        max_width,
        queued.as_str(),
        None,
    );
    push_count(
        &mut items,
        &mut used_width,
        max_width,
        "Purge",
        groups.purge.len(),
        ManagementReviewAction::Purge,
    );
    push_count(
        &mut items,
        &mut used_width,
        max_width,
        "Remove",
        groups.delete.len(),
        ManagementReviewAction::Remove,
    );
    push_count(
        &mut items,
        &mut used_width,
        max_width,
        "Pause",
        groups.pause.len(),
        ManagementReviewAction::Pause,
    );
    push_count(
        &mut items,
        &mut used_width,
        max_width,
        "Resume",
        groups.resume.len(),
        ManagementReviewAction::Resume,
    );
    items
}

/// What a review will do to files: purge some, keep those of removed torrents, or
/// nothing.
pub open spec fn safety_text(review: ReviewView, size: Seq<char>, width: int) -> Seq<char> {
    if review.purge.len() > 0 {
        if width >= 52 {
            "Purge permanently removes downloaded files • "@ + size
        } else {
            "PURGE "@ + decimal(review.purge.len()) + " • files • "@ + size
        }
    } else if review.delete.len() > 0 {
        "Remove changes the client only • downloaded files stay"@
    } else {
        "No downloaded files will be deleted"@
    }
}

/// What a review will do to files, shortened to a width, and the most destructive
/// kind of change that there is.
pub fn management_review_safety_detail(
    groups: &TorrentManagementReviewCache,
    purge_size: &str,
    width: u16,
) -> (detail: (String, Option<ManagementReviewAction>))
    ensures
        detail.0@ == middle_shortened(
            safety_text(groups@, purge_size@, width as int),
            width as usize,
        ),
        detail.1 == if groups@.purge.len() > 0 {
            Some(ManagementReviewAction::Purge)
        } else if groups@.delete.len() > 0 {
            Some(ManagementReviewAction::Remove)
        } else {
            None
        },
{
    let (text, action) = if groups.purge.len() > 0 {
        (
            if width >= 52 {
                join("Purge permanently removes downloaded files • ", purge_size)
            } else {
                let mut text = join3(
                    "PURGE ",
                    format_number(groups.purge.len() as u64).as_str(),
                    " • files • ",
                );
                text.append(purge_size);
                text
            },
            Some(ManagementReviewAction::Purge),
        )
    } else if groups.delete.len() > 0 {
        (
            owned("Remove changes the client only • downloaded files stay"),
            Some(ManagementReviewAction::Remove),
        )
    } else {
        (owned("No downloaded files will be deleted"), None)
    };
    (truncate_middle_with_ellipsis(text.as_str(), width as usize), action)
}

} // verus!
