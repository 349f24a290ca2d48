//! Which columns of a table fit.
use crate::geometry::{monus, Constraint};
use crate::lists::{contains_push, kept, kept_contains};
use crate::order::{
    index_positions, order_of, positions, stable_sort, stably_sorted, stably_sorted_keeps_items,
    Precedence,
};
use vstd::prelude::*;

verus! {

/// A column that a table can show.
#[derive(Clone, Copy, Debug, PartialEq, Eq, Structural)]
pub struct SmartCol {
    /// The width below which the column is not shown.
    pub min_width: u16,
    /// Columns of a lower number are shown first; those of number zero always.
    pub priority: u8,
    pub constraint: Constraint,
}

/// The width that stays free for the growing columns.
pub open spec fn expansion_reserve(available_width: int) -> int {
    if available_width < 80 {
        15
    } else if available_width < 140 {
        25
    } else {
        0
    }
}

/// The width that columns beyond the indispensable ones may take up.
pub open spec fn column_budget(available_width: int) -> int {
    monus(available_width, expansion_reserve(available_width))
}

/// Columns ordered by priority.
pub struct ByPriority<'a> {
    pub columns: &'a Vec<SmartCol>,
}

impl<'a> Precedence<usize> for ByPriority<'a> {
    open spec fn precedes(&self, a: usize, b: usize) -> bool {
        self.columns@[a as int].priority < self.columns@[b as int].priority
    }

    open spec fn knows(&self, a: usize) -> bool {
        a < self.columns@.len()
    }

    fn goes_before(&self, a: &usize, b: &usize) -> (before: bool) {
        self.columns[*a].priority < self.columns[*b].priority
    }
}

/// Column numbers in order of priority, those of equal priority from left to
/// right.
pub open spec fn priority_order(columns: Seq<SmartCol>) -> Seq<usize> {
    stably_sorted(
        positions(columns.len()),
        |a: usize, b: usize| columns[a as int].priority < columns[b as int].priority,
    )
}

/// The width that columns taken so far need, with `padding` cells between two of
/// them, and which columns those are. A column is taken if it is indispensable or
/// still fits into the budget.
pub open spec fn taken_columns(
    order: Seq<usize>,
    columns: Seq<SmartCol>,
    budget: int,
    padding: int,
) -> (int, Seq<usize>)
    decreases order.len(),
{
    if order.len() == 0 {
        (0, Seq::empty())
    } else {
        let (used, taken) = taken_columns(order.drop_last(), columns, budget, padding);
        let column = columns[order.last() as int];
        let width = used + column.min_width + if taken.len() == 0 {
            0
        } else {
            padding
        };
        if column.priority == 0 || width <= budget {
            (width, taken.push(order.last()))
        } else {
            (used, taken)
        }
    }
}

/// The numbers of the columns on view, from left to right.
pub open spec fn visible_columns(
    columns: Seq<SmartCol>,
    available_width: int,
    padding: int,
) -> Seq<usize> {
    let taken = taken_columns(
        priority_order(columns),
        columns,
        column_budget(available_width),
        padding,
    ).1;
    kept(positions(columns.len()), |i: usize| taken.contains(i))
}

/// Every number in the priority order is that of a column, and every column is
/// there.
pub proof fn priority_order_is_complete(columns: Seq<SmartCol>)
    requires
        columns.len() <= usize::MAX,
    ensures
        priority_order(columns).len() == columns.len(),
        forall|i: usize| #[trigger]
            priority_order(columns).contains(i) <==> (i as int) < columns.len(),
{
    broadcast use vstd::seq_lib::group_to_multiset_ensures;

    let before = |a: usize, b: usize| columns[a as int].priority < columns[b as int].priority;
    let all = positions(columns.len());
    stably_sorted_keeps_items(all, before);
    assert forall|i: usize| #[trigger] priority_order(columns).contains(i) <==> (i as int)
        < columns.len() by {
        assert(priority_order(columns).contains(i) <==> priority_order(columns).to_multiset().count(
            i,
        ) > 0);
        assert(all.contains(i) <==> all.to_multiset().count(i) > 0);
        if (i as int) < columns.len() {
            assert(all[i as int] == i);
        }
        if all.contains(i) {
            let k = choose|k: int| 0 <= k < all.len() && all[k] == i;
            assert(all[k] == k as usize);
        }
    }
}

proof fn taken_columns_are_in_order(
    order: Seq<usize>,
    columns: Seq<SmartCol>,
    budget: int,
    padding: int,
)
    ensures
        forall|i: usize| #[trigger]
            taken_columns(order, columns, budget, padding).1.contains(i) ==> order.contains(i),
        forall|i: usize|
            order.contains(i) && columns[i as int].priority == 0 ==> #[trigger] taken_columns(
                order,
                columns,
                budget,
                padding,
            ).1.contains(i),
    decreases order.len(),
{
    if order.len() > 0 {
        let head = order.drop_last();
        taken_columns_are_in_order(head, columns, budget, padding);
        let taken = taken_columns(head, columns, budget, padding).1;
        let out = taken_columns(order, columns, budget, padding).1;
        assert(order =~= head.push(order.last()));
        assert forall|i: usize| #[trigger] out.contains(i) implies order.contains(i) by {
            contains_push(head, order.last(), i);
            contains_push(taken, order.last(), i);
        }
        assert forall|i: usize|
            order.contains(i) && columns[i as int].priority == 0 implies #[trigger] out.contains(
            i,
        ) by {
            contains_push(head, order.last(), i);
            contains_push(taken, order.last(), i);
            if head.contains(i) {
                assert(taken.contains(i));
            }
        }
    }
}

/// Columns of priority zero are on view at every width.
pub proof fn indispensable_columns_are_visible(
    columns: Seq<SmartCol>,
    available_width: int,
    padding: int,
    column: usize,
)
    requires
        columns.len() <= usize::MAX,
        (column as int) < columns.len(),
        columns[column as int].priority == 0,
    ensures
        visible_columns(columns, available_width, padding).contains(column),
{
    let order = priority_order(columns);
    let budget = column_budget(available_width);
    priority_order_is_complete(columns);
    taken_columns_are_in_order(order, columns, budget, padding);
    let taken = taken_columns(order, columns, budget, padding).1;
    let all = positions(columns.len());
    assert(order.contains(column));
    assert(taken.contains(column));
    kept_contains(all, |i: usize| taken.contains(i));
    assert(all[column as int] == column);
    assert(all.contains(column));
}

/// The columns on view are columns of the table, in rising order.
pub proof fn visible_columns_rise(columns: Seq<SmartCol>, available_width: int, padding: int)
    requires
        columns.len() <= usize::MAX,
    ensures
        forall|k: int|
            0 <= k < visible_columns(columns, available_width, padding).len()
                ==> #[trigger] visible_columns(columns, available_width, padding)[k]
                < columns.len(),
        forall|j: int, k: int|
            0 <= j < k < visible_columns(columns, available_width, padding).len()
                ==> #[trigger] visible_columns(columns, available_width, padding)[j]
                < #[trigger] visible_columns(columns, available_width, padding)[k],
{
    let taken = taken_columns(
        priority_order(columns),
        columns,
        column_budget(available_width),
        padding,
    ).1;
    kept_positions_rise(columns.len(), |i: usize| taken.contains(i));
}

/// Positions that pass a test, in rising order.
pub proof fn kept_positions_rise(n: nat, test: spec_fn(usize) -> bool)
    requires
        n <= usize::MAX,
    ensures
        forall|k: int|
            0 <= k < kept(positions(n), test).len() ==> #[trigger] kept(positions(n), test)[k] < n,
        forall|j: int, k: int|
            0 <= j < k < kept(positions(n), test).len() ==> #[trigger] kept(positions(n), test)[j]
                < #[trigger] kept(positions(n), test)[k],
    decreases n,
{
    if n > 0 {
        kept_positions_rise((n - 1) as nat, test);
        assert(positions(n).drop_last() =~= positions((n - 1) as nat));
        let head = kept(positions((n - 1) as nat), test);
        let out = kept(positions(n), test);
        assert(positions(n).last() == (n - 1) as usize);
        assert(out == head || out == head.push((n - 1) as usize));
        assert forall|k: int| 0 <= k < out.len() implies #[trigger] out[k] < n by {
            if k < head.len() {
                assert(out[k] == head[k]);
            }
        }
        assert forall|j: int, k: int| 0 <= j < k < out.len() implies #[trigger] out[j]
            < #[trigger] out[k] by {
            assert(out[j] == head[j]);
            if k < head.len() {
                assert(out[k] == head[k]);
            }
        }
    }
}

/// The constraints and the numbers of the columns that a table of the given
/// width shows, from left to right.
pub fn compute_smart_table_layout(
    columns: &Vec<SmartCol>,
    available_width: u16,
    horizontal_padding: u16,
) -> (layout: (Vec<Constraint>, Vec<usize>))
    ensures
        layout.1@ == visible_columns(columns@, available_width as int, horizontal_padding as int),
        layout.0@.len() == layout.1@.len(),
        forall|k: int|
            0 <= k < layout.1@.len() ==> layout.1@[k] < columns@.len() && #[trigger] layout.0@[k]
                == columns@[layout.1@[k] as int].constraint,
{
    let all = index_positions(columns.len());
    let by_priority = ByPriority { columns };
    let order = stable_sort(&all, &by_priority);
    let ghost before = |a: usize, b: usize|
        columns@[a as int].priority < columns@[b as int].priority;
    proof {
        assert(order_of::<usize, ByPriority>(&by_priority) =~= before);
        assert(order@ == priority_order(columns@));
        priority_order_is_complete(columns@);
    }
    let reserve: u16 = if available_width < 80 {
        15
    } else if available_width < 140 {
        25
    } else {
        0
    };
    let budget: u128 = available_width.saturating_sub(reserve) as u128;
    let mut used: u128 = 0;
    let mut taken: Vec<usize> = Vec::new();
    let mut k: usize = 0;
    while k < order.len()
        invariant
            k <= order@.len(),
            order@.len() == columns@.len(),
            forall|i: usize| #[trigger] order@.contains(i) <==> (i as int) < columns@.len(),
            (used as int, taken@) == taken_columns(
                order@.take(k as int),
                columns@,
                budget as int,
                horizontal_padding as int,
            ),
            used <= k * 200_000,
        decreases order@.len() - k,
    {
        let index = order[k];
        assert(order@.contains(index));
        let column = columns[index];
        let gap: u128 = if taken.len() == 0 {
            0
        } else {
            horizontal_padding as u128
        };
        let width: u128 = used + column.min_width as u128 + gap;
        assert(order@.take(k + 1).drop_last() =~= order@.take(k as int));
        if column.priority == 0 || width <= budget {
            taken.push(index);
            used = width;
        }
        k = k + 1;
    }
    assert(order@.take(k as int) =~= order@);
    let ghost test = |i: usize| taken@.contains(i);
    let mut constraints: Vec<Constraint> = Vec::new();
    let mut indices: Vec<usize> = Vec::new();
    let mut i: usize = 0;
    while i < columns.len()
        invariant
            i <= columns@.len(),
            test == (|i: usize| taken@.contains(i)),
            indices@ == kept(positions(i as nat), test),
            constraints@.len() == indices@.len(),
            forall|k: int|
                0 <= k < indices@.len() ==> indices@[k] < columns@.len() && #[trigger] constraints@[k]
                    == columns@[indices@[k] as int].constraint,
        decreases columns@.len() - i,
    {
        assert(positions((i + 1) as nat).drop_last() =~= positions(i as nat));
        if holds_index(&taken, i) {
            indices.push(i);
            constraints.push(columns[i].constraint);
        }
        i = i + 1;
    }
    (constraints, indices)
}

/// Whether a list holds an index.
pub fn holds_index(list: &Vec<usize>, index: usize) -> (held: bool)
    ensures
        held == list@.contains(index),
{
    let mut k: usize = 0;
    while k < list.len()
        invariant
            k <= list@.len(),
            forall|j: int| 0 <= j < k ==> list@[j] != index,
        decreases list@.len() - k,
    {
        if list[k] == index {
            assert(list@[k as int] == index);
            return true;
        }
        k = k + 1;
    }
    false
}

/// The last index in a list that is not above `limit`.
pub open spec fn last_at_most(list: Seq<usize>, limit: int) -> Option<usize>
    decreases list.len(),
{
    if list.len() == 0 {
        None
    } else if list.last() <= limit {
        Some(list.last())
    } else {
        last_at_most(list.drop_last(), limit)
    }
}

/// The column that a selection means while only some columns are on view: itself
/// if it is on view, or else the nearest one on view to its left, or else the
/// first one on view. With no column on view it is `fallback`.
pub open spec fn nearest_visible(selected: int, visible: Seq<usize>, fallback: int) -> int {
    if visible.len() == 0 {
        fallback
    } else if exists|k: int| 0 <= k < visible.len() && #[trigger] visible[k] == selected {
        selected
    } else {
        match last_at_most(visible, selected) {
            Some(i) => i as int,
            None => visible[0] as int,
        }
    }
}

/// The selected column is always one that is on view.
pub proof fn nearest_visible_is_visible(selected: int, visible: Seq<usize>, fallback: int)
    requires
        visible.len() > 0,
    ensures
        exists|k: int|
            0 <= k < visible.len() && #[trigger] visible[k] == nearest_visible(
                selected,
                visible,
                fallback,
            ),
{
    if !exists|k: int| 0 <= k < visible.len() && #[trigger] visible[k] == selected {
        last_at_most_is_held(visible, selected);
        if last_at_most(visible, selected) is None {
            assert(visible[0] == nearest_visible(selected, visible, fallback));
        }
    }
}

proof fn last_at_most_is_held(list: Seq<usize>, limit: int)
    ensures
        last_at_most(list, limit) matches Some(i) ==> exists|k: int|
            0 <= k < list.len() && #[trigger] list[k] == i,
    decreases list.len(),
{
    if list.len() > 0 {
        if list.last() <= limit {
            assert(list[list.len() - 1] == list.last());
        } else {
            last_at_most_is_held(list.drop_last(), limit);
            if let Some(i) = last_at_most(list, limit) {
                let k = choose|k: int|
                    0 <= k < list.drop_last().len() && #[trigger] list.drop_last()[k] == i;
                assert(list[k] == i);
            }
        }
    }
}

/// The column that a selection means while only some columns are on view.
pub fn nearest_visible_column(selected: usize, visible: &Vec<usize>, fallback: usize) -> (column:
    usize)
    ensures
        column == nearest_visible(selected as int, visible@, fallback as int),
        visible@.len() > 0 ==> visible@.contains(column),
{
    proof {
        if visible@.len() > 0 {
            nearest_visible_is_visible(selected as int, visible@, fallback as int);
        }
    }
    if visible.len() == 0 {
        return fallback;
    }
    if holds_index(visible, selected) {
        return selected;
    }
    assert forall|k: int| 0 <= k < visible@.len() implies #[trigger] visible@[k] != selected by {
        assert(visible@.contains(visible@[k]));
    }
    let mut k: usize = visible.len();
    assert(visible@.take(k as int) =~= visible@);
    while k > 0
        invariant
            k <= visible@.len(),
            visible@.len() > 0,
            !visible@.contains(selected),
            forall|j: int| 0 <= j < visible@.len() ==> #[trigger] visible@[j] != selected,
            last_at_most(visible@, selected as int) == last_at_most(
                visible@.take(k as int),
                selected as int,
            ),
        decreases k,
    {
        if visible[k - 1] <= selected {
            assert(visible@.contains(visible@[k - 1]));
            return visible[k - 1];
        }
        assert(visible@.take(k as int).drop_last() =~= visible@.take(k - 1));
        k = k - 1;
    }
    assert(visible@.contains(visible@[0]));
    visible[0]
}

/// The first position of an index in a list.
pub open spec fn index_position(list: Seq<usize>, index: int) -> Option<int>
    decreases list.len(),
{
    if list.len() == 0 {
        None
    } else {
        match index_position(list.drop_last(), index) {
            Some(k) => Some(k),
            None => if list.last() == index {
                Some(list.len() - 1)
            } else {
                None
            },
        }
    }
}

/// One step to the left or to the right among the columns on view, from the
/// column that the selection means; at either end the selection stays.
pub open spec fn stepped_column(
    selected: int,
    visible: Seq<usize>,
    fallback: int,
    rightward: bool,
) -> int {
    if visible.len() == 0 {
        selected
    } else {
        let at = match index_position(visible, nearest_visible(selected, visible, fallback)) {
            Some(k) => k,
            None => 0,
        };
        let to = if !rightward {
            monus(at, 1)
        } else if at + 1 < visible.len() {
            at + 1
        } else {
            visible.len() - 1
        };
        visible[to] as int
    }
}

/// One step to the left or to the right among the columns on view.
pub fn step_column(selected: usize, visible: &Vec<usize>, fallback: usize, rightward: bool) -> (
column: usize)
    ensures
        column == stepped_column(selected as int, visible@, fallback as int, rightward),
        visible@.len() > 0 ==> visible@.contains(column),
{
    if visible.len() == 0 {
        return selected;
    }
    let current = nearest_visible_column(selected, visible, fallback);
    let mut at: usize = 0;
    let mut found = false;
    let mut k: usize = 0;
    while k < visible.len()
        invariant
            k <= visible@.len(),
            visible@.len() > 0,
            at < visible@.len(),
            index_position(visible@.take(k as int), current as int) == if found {
                Some(at as int)
            } else {
                None
            },
            !found ==> at == 0,
        decreases visible@.len() - k,
    {
        assert(visible@.take(k + 1).drop_last() =~= visible@.take(k as int));
        if !found && visible[k] == current {
            found = true;
            at = k;
        }
        k = k + 1;
    }
    assert(visible@.take(k as int) =~= visible@);
    let to: usize = if !rightward {
        at.saturating_sub(1)
    } else if at + 1 < visible.len() {
        at + 1
    } else {
        visible.len() - 1
    };
    assert(visible@.contains(visible@[to as int]));
    visible[to]
}

} // verus!
