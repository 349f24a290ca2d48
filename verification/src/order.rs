//! Stable sorting by an order that may depend on the state it is asked in.
use crate::text::{is_text_before, text_before};
use vstd::prelude::*;

verus! {

/// A strict order on items.
pub trait Precedence<T> {
    /// `a` comes strictly before `b`.
    spec fn precedes(&self, a: T, b: T) -> bool;

    /// Whether the item can be compared in the present state.
    spec fn knows(&self, a: T) -> bool;

    fn goes_before(&self, a: &T, b: &T) -> (before: bool)
        requires
            self.knows(*a),
            self.knows(*b),
        ensures
            before == self.precedes(*a, *b),
    ;
}

/// How two items compare.
#[derive(Clone, Copy, Debug, PartialEq, Eq, Structural)]
pub enum Comparison {
    Less,
    Equal,
    Greater,
}

/// How two integers compare.
pub open spec fn by_number(a: int, b: int) -> Comparison {
    if a < b {
        Comparison::Less
    } else if a > b {
        Comparison::Greater
    } else {
        Comparison::Equal
    }
}

/// How two texts compare.
pub open spec fn by_text(a: Seq<char>, b: Seq<char>) -> Comparison {
    if text_before(a, b) {
        Comparison::Less
    } else if text_before(b, a) {
        Comparison::Greater
    } else {
        Comparison::Equal
    }
}

/// Lexicographic order of byte strings: `a` comes strictly before `b`.
pub open spec fn bytes_before(a: Seq<u8>, b: Seq<u8>) -> bool
    decreases b.len(),
{
    if b.len() == 0 {
        false
    } else if a.len() == 0 {
        true
    } else if a[0] != b[0] {
        a[0] < b[0]
    } else {
        bytes_before(a.drop_first(), b.drop_first())
    }
}

/// How two byte strings compare.
pub open spec fn by_bytes(a: Seq<u8>, b: Seq<u8>) -> Comparison {
    if a == b {
        Comparison::Equal
    } else if bytes_before(a, b) {
        Comparison::Less
    } else {
        Comparison::Greater
    }
}

/// How two byte strings compare.
pub fn compare_bytes(a: &Vec<u8>, b: &Vec<u8>) -> (c: Comparison)
    ensures
        c == by_bytes(a@, b@),
{
    let mut i: usize = 0;
    assert(a@.skip(0) =~= a@);
    assert(b@.skip(0) =~= b@);
    while i < a.len() && i < b.len() && a[i] == b[i]
        invariant
            i <= a@.len(),
            i <= b@.len(),
            forall|k: int| 0 <= k < i ==> a@[k] == b@[k],
            bytes_before(a@, b@) == bytes_before(a@.skip(i as int), b@.skip(i as int)),
        decreases a@.len() - i,
    {
        assert(a@.skip(i as int).drop_first() =~= a@.skip(i + 1));
        assert(b@.skip(i as int).drop_first() =~= b@.skip(i + 1));
        i = i + 1;
    }
    if i == a.len() && i == b.len() {
        assert(a@ =~= b@);
        return Comparison::Equal;
    }
    proof {
        if i == a@.len() || i == b@.len() {
            assert(a@.len() != b@.len());
        } else {
            assert(a@[i as int] != b@[i as int]);
        }
        assert(a@ != b@);
    }
    if i == a.len() {
        Comparison::Less
    } else if i == b.len() {
        Comparison::Greater
    } else if a[i] < b[i] {
        Comparison::Less
    } else {
        Comparison::Greater
    }
}

/// The second comparison decides where the first is a tie.
pub open spec fn or_by(first: Comparison, second: Comparison) -> Comparison {
    if first == Comparison::Equal {
        second
    } else {
        first
    }
}

pub open spec fn reversed(c: Comparison) -> Comparison {
    match c {
        Comparison::Less => Comparison::Greater,
        Comparison::Equal => Comparison::Equal,
        Comparison::Greater => Comparison::Less,
    }
}

pub fn compare_numbers(a: u128, b: u128) -> (c: Comparison)
    ensures
        c == by_number(a as int, b as int),
{
    if a < b {
        Comparison::Less
    } else if a > b {
        Comparison::Greater
    } else {
        Comparison::Equal
    }
}

pub fn compare_texts(a: &str, b: &str) -> (c: Comparison)
    ensures
        c == by_text(a@, b@),
{
    if is_text_before(a, b) {
        Comparison::Less
    } else if is_text_before(b, a) {
        Comparison::Greater
    } else {
        Comparison::Equal
    }
}

pub fn break_tie(first: Comparison, second: Comparison) -> (c: Comparison)
    ensures
        c == or_by(first, second),
{
    if first == Comparison::Equal {
        second
    } else {
        first
    }
}

/// Sorting by rising or falling values.
#[derive(Clone, Copy, Debug, PartialEq, Eq, Structural)]
pub enum SortDirection {
    Ascending,
    Descending,
}

pub open spec fn other_direction(direction: SortDirection) -> SortDirection {
    match direction {
        SortDirection::Ascending => SortDirection::Descending,
        SortDirection::Descending => SortDirection::Ascending,
    }
}

/// The opposite direction.
pub fn reverse_sort_direction(direction: SortDirection) -> (other: SortDirection)
    ensures
        other == other_direction(direction),
{
    match direction {
        SortDirection::Ascending => SortDirection::Descending,
        SortDirection::Descending => SortDirection::Ascending,
    }
}

/// A comparison as a sort in the given direction sees it.
pub open spec fn directed(c: Comparison, direction: SortDirection) -> Comparison {
    match direction {
        SortDirection::Ascending => c,
        SortDirection::Descending => reversed(c),
    }
}

/// A comparison as a sort in the given direction sees it.
pub fn apply_sort_direction(c: Comparison, direction: SortDirection) -> (seen: Comparison)
    ensures
        seen == directed(c, direction),
{
    match direction {
        SortDirection::Ascending => c,
        SortDirection::Descending => match c {
            Comparison::Less => Comparison::Greater,
            Comparison::Equal => Comparison::Equal,
            Comparison::Greater => Comparison::Less,
        },
    }
}

/// `item` put into `sorted` behind everything that it does not strictly precede.
pub open spec fn placed<T>(sorted: Seq<T>, item: T, before: spec_fn(T, T) -> bool) -> Seq<T>
    decreases sorted.len(),
{
    if sorted.len() == 0 || !before(item, sorted.last()) {
        sorted.push(item)
    } else {
        placed(sorted.drop_last(), item, before).push(sorted.last())
    }
}

/// The items in order, those of equal rank in the order they came in.
pub open spec fn stably_sorted<T>(items: Seq<T>, before: spec_fn(T, T) -> bool) -> Seq<T>
    decreases items.len(),
{
    if items.len() == 0 {
        items
    } else {
        placed(stably_sorted(items.drop_last(), before), items.last(), before)
    }
}

/// The order as a spec function.
pub open spec fn order_of<T, P: Precedence<T>>(order: &P) -> spec_fn(T, T) -> bool {
    |a: T, b: T| order.precedes(a, b)
}

/// Sorting neither adds nor drops an item.
pub proof fn stably_sorted_keeps_items<T>(items: Seq<T>, before: spec_fn(T, T) -> bool)
    ensures
        stably_sorted(items, before).to_multiset() =~= items.to_multiset(),
        stably_sorted(items, before).len() == items.len(),
    decreases items.len(),
{
    broadcast use vstd::seq_lib::group_to_multiset_ensures;

    if items.len() > 0 {
        stably_sorted_keeps_items(items.drop_last(), before);
        placed_keeps_items(stably_sorted(items.drop_last(), before), items.last(), before);
        assert(items =~= items.drop_last().push(items.last()));
    }
}

proof fn placed_keeps_items<T>(sorted: Seq<T>, item: T, before: spec_fn(T, T) -> bool)
    ensures
        placed(sorted, item, before).to_multiset() =~= sorted.to_multiset().insert(item),
        placed(sorted, item, before).len() == sorted.len() + 1,
    decreases sorted.len(),
{
    broadcast use vstd::seq_lib::group_to_multiset_ensures;

    if sorted.len() > 0 && before(item, sorted.last()) {
        placed_keeps_items(sorted.drop_last(), item, before);
        assert(sorted =~= sorted.drop_last().push(sorted.last()));
    }
}

/// What holds of an order by rank: nothing precedes itself, precedence chains,
/// and so does not preceding.
pub open spec fn is_weak_order<T>(before: spec_fn(T, T) -> bool) -> bool {
    &&& forall|a: T| !#[trigger] before(a, a)
    &&& forall|a: T, b: T, c: T| #[trigger]
        before(a, b) && #[trigger] before(b, c) ==> before(a, c)
    &&& forall|a: T, b: T, c: T| !#[trigger]
        before(a, b) && !#[trigger] before(b, c) ==> !before(a, c)
}

/// No item comes after one that it strictly precedes.
pub open spec fn in_order<T>(items: Seq<T>, before: spec_fn(T, T) -> bool) -> bool {
    forall|i: int, j: int|
        0 <= i < j < items.len() ==> !before(#[trigger] items[j], #[trigger] items[i])
}

/// Sorting by an order puts the items in that order.
pub proof fn stably_sorted_is_in_order<T>(items: Seq<T>, before: spec_fn(T, T) -> bool)
    requires
        is_weak_order(before),
    ensures
        in_order(stably_sorted(items, before), before),
    decreases items.len(),
{
    if items.len() > 0 {
        stably_sorted_is_in_order(items.drop_last(), before);
        placed_is_in_order(stably_sorted(items.drop_last(), before), items.last(), before);
    }
}

proof fn placed_is_in_order<T>(sorted: Seq<T>, item: T, before: spec_fn(T, T) -> bool)
    requires
        is_weak_order(before),
        in_order(sorted, before),
    ensures
        in_order(placed(sorted, item, before), before),
        forall|k: int|
            0 <= k < sorted.len() + 1 ==> #[trigger] placed(sorted, item, before)[k] == item
                || exists|m: int|
                0 <= m < sorted.len() && #[trigger] sorted[m] == placed(sorted, item, before)[k],
    decreases sorted.len(),
{
    placed_keeps_items(sorted, item, before);
    let out = placed(sorted, item, before);
    if sorted.len() == 0 {
    } else if !before(item, sorted.last()) {
        assert forall|i: int, j: int| 0 <= i < j < out.len() implies !before(
            #[trigger] out[j],
            #[trigger] out[i],
        ) by {
            if j == sorted.len() {
                let l = sorted.last();
                assert(out[i] == sorted[i]);
                if i < sorted.len() - 1 {
                    assert(!before(sorted[sorted.len() - 1], sorted[i]));
                }
                assert(!before(item, l));
                assert(!before(l, sorted[i]));
            } else {
                assert(out[i] == sorted[i] && out[j] == sorted[j]);
            }
        }
        assert forall|k: int| 0 <= k < sorted.len() + 1 implies #[trigger] out[k] == item || exists|
            m: int,
        |
            0 <= m < sorted.len() && #[trigger] sorted[m] == out[k] by {
            if k < sorted.len() {
                assert(sorted[k] == out[k]);
            }
        }
    } else {
        let head = sorted.drop_last();
        let sub = placed(head, item, before);
        placed_keeps_items(head, item, before);
        assert forall|i: int, j: int| 0 <= i < j < head.len() implies !before(
            #[trigger] head[j],
            #[trigger] head[i],
        ) by {
            assert(head[i] == sorted[i] && head[j] == sorted[j]);
        }
        placed_is_in_order(head, item, before);
        let l = sorted.last();
        assert forall|k: int| 0 <= k < sorted.len() + 1 implies #[trigger] out[k] == item || exists|
            m: int,
        |
            0 <= m < sorted.len() && #[trigger] sorted[m] == out[k] by {
            if k < sub.len() {
                assert(out[k] == sub[k]);
                if sub[k] != item {
                    let m = choose|m: int| 0 <= m < head.len() && #[trigger] head[m] == sub[k];
                    assert(sorted[m] == out[k]);
                }
            } else {
                assert(sorted[sorted.len() - 1] == out[k]);
            }
        }
        assert forall|i: int, j: int| 0 <= i < j < out.len() implies !before(
            #[trigger] out[j],
            #[trigger] out[i],
        ) by {
            if j < sub.len() {
                assert(out[i] == sub[i] && out[j] == sub[j]);
            } else {
                assert(out[j] == l);
                assert(out[i] == sub[i]);
                if sub[i] == item {
                    if before(l, item) {
                        assert(before(item, l));
                        assert(before(l, l));
                    }
                } else {
                    let m = choose|m: int| 0 <= m < head.len() && #[trigger] head[m] == sub[i];
                    assert(sorted[m] == head[m]);
                    assert(!before(sorted[sorted.len() - 1], sorted[m]));
                }
            }
        }
    }
}

/// Two orders that agree on the items sort them alike.
pub proof fn stably_sorted_agree<T>(
    items: Seq<T>,
    f: spec_fn(T, T) -> bool,
    g: spec_fn(T, T) -> bool,
)
    requires
        forall|i: int, j: int|
            0 <= i < items.len() && 0 <= j < items.len() ==> f(
                #[trigger] items[i],
                #[trigger] items[j],
            ) == g(items[i], items[j]),
    ensures
        stably_sorted(items, f) == stably_sorted(items, g),
    decreases items.len(),
{
    broadcast use vstd::seq_lib::group_to_multiset_ensures;

    if items.len() > 0 {
        let head = items.drop_last();
        assert forall|i: int, j: int| 0 <= i < head.len() && 0 <= j < head.len() implies f(
            #[trigger] head[i],
            #[trigger] head[j],
        ) == g(head[i], head[j]) by {
            assert(head[i] == items[i] && head[j] == items[j]);
        }
        stably_sorted_agree(head, f, g);
        let sorted = stably_sorted(head, f);
        stably_sorted_keeps_items(head, f);
        assert forall|k: int| 0 <= k < sorted.len() implies f(items.last(), #[trigger] sorted[k])
            == g(items.last(), sorted[k]) by {
            assert(sorted.contains(sorted[k]));
            assert(sorted.to_multiset().count(sorted[k]) > 0);
            assert(head.to_multiset().count(sorted[k]) > 0);
            assert(head.contains(sorted[k]));
            let m = choose|m: int| 0 <= m < head.len() && head[m] == sorted[k];
            assert(items[m] == sorted[k]);
            assert(items[items.len() - 1] == items.last());
        }
        placed_agree(sorted, items.last(), f, g);
    }
}

proof fn placed_agree<T>(
    sorted: Seq<T>,
    item: T,
    f: spec_fn(T, T) -> bool,
    g: spec_fn(T, T) -> bool,
)
    requires
        forall|k: int| 0 <= k < sorted.len() ==> f(item, #[trigger] sorted[k]) == g(item, sorted[k]),
    ensures
        placed(sorted, item, f) == placed(sorted, item, g),
    decreases sorted.len(),
{
    if sorted.len() > 0 {
        assert(sorted.last() == sorted[sorted.len() - 1]);
        assert forall|k: int| 0 <= k < sorted.drop_last().len() implies f(
            item,
            #[trigger] sorted.drop_last()[k],
        ) == g(item, sorted.drop_last()[k]) by {
            assert(sorted.drop_last()[k] == sorted[k]);
        }
        placed_agree(sorted.drop_last(), item, f, g);
    }
}

/// Sorting items by what a function makes of them, and sorting what it makes of
/// them, come to the same.
pub proof fn sorting_commutes_with_mapping<T, U>(
    items: Seq<T>,
    f: spec_fn(T) -> U,
    before: spec_fn(U, U) -> bool,
)
    ensures
        stably_sorted(items, |a: T, b: T| before(f(a), f(b))).map_values(f) == stably_sorted(
            items.map_values(f),
            before,
        ),
    decreases items.len(),
{
    let by_f = |a: T, b: T| before(f(a), f(b));
    if items.len() == 0 {
        assert(stably_sorted(items, by_f).map_values(f) =~= items.map_values(f));
    } else {
        let head = items.drop_last();
        sorting_commutes_with_mapping(head, f, before);
        assert(items.map_values(f).drop_last() =~= head.map_values(f));
        placing_commutes_with_mapping(stably_sorted(head, by_f), items.last(), f, before);
    }
}

proof fn placing_commutes_with_mapping<T, U>(
    sorted: Seq<T>,
    item: T,
    f: spec_fn(T) -> U,
    before: spec_fn(U, U) -> bool,
)
    ensures
        placed(sorted, item, |a: T, b: T| before(f(a), f(b))).map_values(f) == placed(
            sorted.map_values(f),
            f(item),
            before,
        ),
    decreases sorted.len(),
{
    let by_f = |a: T, b: T| before(f(a), f(b));
    if sorted.len() == 0 || !before(f(item), f(sorted.last())) {
        assert(sorted.push(item).map_values(f) =~= sorted.map_values(f).push(f(item)));
    } else {
        placing_commutes_with_mapping(sorted.drop_last(), item, f, before);
        assert(sorted.map_values(f).drop_last() =~= sorted.drop_last().map_values(f));
        let sub = placed(sorted.drop_last(), item, by_f);
        assert(sub.push(sorted.last()).map_values(f) =~= sub.map_values(f).push(f(sorted.last())));
    }
}

/// Puts items in order, stably, and hands them back.
pub fn stable_sort_owned<T, P: Precedence<T>>(items: Vec<T>, order: &P) -> (sorted: Vec<T>)
    requires
        forall|i: int| 0 <= i < items@.len() ==> order.knows(#[trigger] items@[i]),
    ensures
        sorted@ == stably_sorted(items@, order_of::<T, P>(order)),
        sorted@.len() == items@.len(),
{
    let ghost before = order_of::<T, P>(order);
    let ghost all = items@;
    let mut rest = items;
    let mut sorted: Vec<T> = Vec::new();
    let ghost mut done: int = 0;
    assert(all.skip(0) =~= all);
    while rest.len() > 0
        invariant
            0 <= done <= all.len(),
            rest@ == all.skip(done),
            before == order_of::<T, P>(order),
            sorted@ == stably_sorted(all.take(done), before),
            sorted@.len() == done,
            forall|k: int| 0 <= k < sorted@.len() ==> order.knows(#[trigger] sorted@[k]),
            forall|k: int| 0 <= k < all.len() ==> order.knows(#[trigger] all[k]),
        decreases rest@.len(),
    {
        let item = rest.remove(0);
        assert(item == all[done]);
        let mut at: usize = sorted.len();
        while at > 0 && order.goes_before(&item, &sorted[at - 1])
            invariant
                at <= sorted@.len(),
                order.knows(item),
                before == order_of::<T, P>(order),
                forall|k: int| 0 <= k < sorted@.len() ==> order.knows(#[trigger] sorted@[k]),
                forall|k: int| at <= k < sorted@.len() ==> before(item, #[trigger] sorted@[k]),
            decreases at,
        {
            at = at - 1;
        }
        proof {
            placed_splits(sorted@, item, before, at as int);
            assert(all.take(done + 1).drop_last() =~= all.take(done));
            assert(rest@ =~= all.skip(done + 1));
            done = done + 1;
        }
        sorted.insert(at, item);
    }
    assert(all.take(done) =~= all);
    sorted
}

/// The index positions `0..n`.
pub open spec fn positions(n: nat) -> Seq<usize> {
    Seq::new(n, |i: int| i as usize)
}

/// The index positions below a length.
pub fn index_positions(n: usize) -> (indices: Vec<usize>)
    ensures
        indices@ == positions(n as nat),
{
    let mut indices: Vec<usize> = Vec::new();
    let mut i: usize = 0;
    while i < n
        invariant
            i <= n,
            indices@ == positions(i as nat),
        decreases n - i,
    {
        indices.push(i);
        i = i + 1;
        assert(indices@ =~= positions(i as nat));
    }
    indices
}

/// An item goes in front of exactly the tail that it strictly precedes.
pub proof fn placed_splits<T>(sorted: Seq<T>, item: T, before: spec_fn(T, T) -> bool, at: int)
    requires
        0 <= at <= sorted.len(),
        forall|k: int| at <= k < sorted.len() ==> before(item, #[trigger] sorted[k]),
        at > 0 ==> !before(item, sorted[at - 1]),
    ensures
        placed(sorted, item, before) =~= sorted.insert(at, item),
    decreases sorted.len(),
{
    if at < sorted.len() {
        assert(before(item, sorted[sorted.len() - 1]));
        placed_splits(sorted.drop_last(), item, before, at);
    }
}

/// Puts a list of items in order, stably.
pub fn stable_sort<T: Copy, P: Precedence<T>>(items: &Vec<T>, order: &P) -> (sorted: Vec<T>)
    requires
        forall|i: int| 0 <= i < items@.len() ==> order.knows(#[trigger] items@[i]),
    ensures
        sorted@ == stably_sorted(items@, order_of::<T, P>(order)),
        sorted@.len() == items@.len(),
        sorted@.to_multiset() == items@.to_multiset(),
{
    let ghost before = order_of::<T, P>(order);
    let mut sorted: Vec<T> = Vec::new();
    let mut i: usize = 0;
    while i < items.len()
        invariant
            i <= items@.len(),
            before == order_of::<T, P>(order),
            sorted@ == stably_sorted(items@.take(i as int), before),
            sorted@.len() == i,
            forall|k: int| 0 <= k < sorted@.len() ==> order.knows(#[trigger] sorted@[k]),
            forall|k: int| 0 <= k < items@.len() ==> order.knows(#[trigger] items@[k]),
        decreases items@.len() - i,
    {
        let item = items[i];
        let mut at: usize = sorted.len();
        while at > 0 && order.goes_before(&item, &sorted[at - 1])
            invariant
                at <= sorted@.len(),
                order.knows(item),
                before == order_of::<T, P>(order),
                forall|k: int| 0 <= k < sorted@.len() ==> order.knows(#[trigger] sorted@[k]),
                forall|k: int| at <= k < sorted@.len() ==> before(item, #[trigger] sorted@[k]),
            decreases at,
        {
            at = at - 1;
        }
        proof {
            placed_splits(sorted@, item, before, at as int);
            assert(items@.take(i + 1).drop_last() =~= items@.take(i as int));
        }
        sorted.insert(at, item);
        i = i + 1;
    }
    proof {
        assert(items@.take(i as int) =~= items@);
        stably_sorted_keeps_items(items@, before);
    }
    sorted
}

} // verus!
