//! Lists of hashes, texts and indices.
use crate::order::{
    in_order, is_weak_order, placed, placed_splits, stably_sorted, stably_sorted_is_in_order,
};
use crate::text::{is_text_before, owned, same_text, text_before};
use vstd::prelude::*;

verus! {

/// The items of a list that pass a test, in their order.
pub open spec fn kept<T>(items: Seq<T>, test: spec_fn(T) -> bool) -> Seq<T>
    decreases items.len(),
{
    if items.len() == 0 {
        items
    } else if test(items.last()) {
        kept(items.drop_last(), test).push(items.last())
    } else {
        kept(items.drop_last(), test)
    }
}

/// Two tests that agree on the items keep the same ones.
pub proof fn kept_agree<T>(items: Seq<T>, f: spec_fn(T) -> bool, g: spec_fn(T) -> bool)
    requires
        forall|i: int| 0 <= i < items.len() ==> f(#[trigger] items[i]) == g(items[i]),
    ensures
        kept(items, f) == kept(items, g),
    decreases items.len(),
{
    if items.len() > 0 {
        assert(items.last() == items[items.len() - 1]);
        assert forall|i: int| 0 <= i < items.drop_last().len() implies f(
            #[trigger] items.drop_last()[i],
        ) == g(items.drop_last()[i]) by {
            assert(items.drop_last()[i] == items[i]);
        }
        kept_agree(items.drop_last(), f, g);
    }
}

/// What is kept was there and passes the test; what was there and passes is kept.
pub proof fn kept_contains<T>(items: Seq<T>, test: spec_fn(T) -> bool)
    ensures
        kept(items, test).len() <= items.len(),
        forall|x: T| #[trigger] kept(items, test).contains(x) <==> items.contains(x) && test(x),
    decreases items.len(),
{
    if items.len() > 0 {
        let head = items.drop_last();
        let last = items.last();
        kept_contains(head, test);
        assert(items =~= head.push(last));
        assert forall|x: T| #[trigger] kept(items, test).contains(x) <==> items.contains(x) && test(
            x,
        ) by {
            contains_push(head, last, x);
            contains_push(kept(head, test), last, x);
        }
    }
}

/// Keeping what passes one test and then another is keeping what passes both.
pub proof fn kept_twice<T>(
    items: Seq<T>,
    first: spec_fn(T) -> bool,
    second: spec_fn(T) -> bool,
    both: spec_fn(T) -> bool,
)
    requires
        forall|x: T| #[trigger] both(x) == (first(x) && second(x)),
    ensures
        kept(kept(items, first), second) == kept(items, both),
    decreases items.len(),
{
    if items.len() > 0 {
        kept_twice(items.drop_last(), first, second, both);
        let some = kept(items.drop_last(), first);
        if first(items.last()) {
            assert(some.push(items.last()).drop_last() =~= some);
        }
    }
}

/// An item put in its place among those kept is where it is among all.
proof fn placing_commutes_with_keeping<T>(
    sorted: Seq<T>,
    item: T,
    before: spec_fn(T, T) -> bool,
    test: spec_fn(T) -> bool,
)
    requires
        is_weak_order(before),
        in_order(sorted, before),
    ensures
        kept(placed(sorted, item, before), test) == if test(item) {
            placed(kept(sorted, test), item, before)
        } else {
            kept(sorted, test)
        },
    decreases sorted.len(),
{
    if sorted.len() == 0 || !before(item, sorted.last()) {
        let some = kept(sorted, test);
        assert(sorted.push(item).drop_last() =~= sorted);
        if some.len() > 0 {
            kept_each(sorted, test);
            assert(sorted.contains(some[some.len() - 1]));
            let k = choose|k: int| 0 <= k < sorted.len() && sorted[k] == some.last();
            let last = sorted[sorted.len() - 1];
            if k < sorted.len() - 1 {
                assert(!before(last, sorted[k]));
                assert(!before(item, last));
            }
            assert(!before(item, some.last()));
        }
    } else {
        let head = sorted.drop_last();
        let last = sorted.last();
        assert forall|i: int, j: int| 0 <= i < j < head.len() implies !before(
            #[trigger] head[j],
            #[trigger] head[i],
        ) by {
            assert(head[i] == sorted[i] && head[j] == sorted[j]);
        }
        placing_commutes_with_keeping(head, item, before, test);
        assert(placed(head, item, before).push(last).drop_last() =~= placed(head, item, before));
        if test(last) {
            assert(kept(head, test).push(last).drop_last() =~= kept(head, test));
        }
    }
}

/// Sorting what is kept is keeping it from what is sorted.
pub proof fn sorting_commutes_with_keeping<T>(
    items: Seq<T>,
    before: spec_fn(T, T) -> bool,
    test: spec_fn(T) -> bool,
)
    requires
        is_weak_order(before),
    ensures
        stably_sorted(kept(items, test), before) == kept(stably_sorted(items, before), test),
    decreases items.len(),
{
    if items.len() > 0 {
        let head = items.drop_last();
        sorting_commutes_with_keeping(head, before, test);
        stably_sorted_is_in_order(head, before);
        placing_commutes_with_keeping(stably_sorted(head, before), items.last(), before, test);
        if test(items.last()) {
            assert(kept(head, test).push(items.last()).drop_last() =~= kept(head, test));
        }
    }
}

pub proof fn contains_push<T>(items: Seq<T>, last: T, x: T)
    ensures
        items.push(last).contains(x) <==> items.contains(x) || x == last,
{
    let all = items.push(last);
    if all.contains(x) {
        let k = choose|k: int| 0 <= k < all.len() && all[k] == x;
        if k < items.len() {
            assert(items[k] == x);
        }
    }
    if items.contains(x) {
        let k = choose|k: int| 0 <= k < items.len() && items[k] == x;
        assert(all[k] == x);
    }
    if x == last {
        assert(all[items.len() as int] == x);
    }
}

/// A test that everything passes keeps everything.
pub proof fn kept_all<T>(items: Seq<T>, test: spec_fn(T) -> bool)
    requires
        forall|i: int| 0 <= i < items.len() ==> test(#[trigger] items[i]),
    ensures
        kept(items, test) == items,
    decreases items.len(),
{
    if items.len() > 0 {
        assert forall|i: int| 0 <= i < items.drop_last().len() implies test(
            #[trigger] items.drop_last()[i],
        ) by {
            assert(items.drop_last()[i] == items[i]);
        }
        kept_all(items.drop_last(), test);
        assert(test(items[items.len() - 1]));
        assert(items =~= items.drop_last().push(items.last()));
    }
}

/// Every item that is kept comes from the list and passes the test.
pub proof fn kept_each<T>(items: Seq<T>, test: spec_fn(T) -> bool)
    ensures
        kept(items, test).len() <= items.len(),
        forall|k: int|
            0 <= k < kept(items, test).len() ==> test(#[trigger] kept(items, test)[k])
                && items.contains(kept(items, test)[k]),
{
    kept_contains(items, test);
    assert forall|k: int| 0 <= k < kept(items, test).len() implies test(
        #[trigger] kept(items, test)[k],
    ) && items.contains(kept(items, test)[k]) by {
        assert(kept(items, test).contains(kept(items, test)[k]));
    }
}

/// Keeping some items of a list without repetitions makes none.
pub proof fn kept_no_duplicates<T>(items: Seq<T>, test: spec_fn(T) -> bool)
    requires
        items.no_duplicates(),
    ensures
        kept(items, test).no_duplicates(),
    decreases items.len(),
{
    if items.len() > 0 {
        let head = items.drop_last();
        assert(head.no_duplicates()) by {
            assert forall|i: int, j: int| 0 <= i < head.len() && 0 <= j < head.len() && i
                != j implies head[i] != head[j] by {
                assert(head[i] == items[i] && head[j] == items[j]);
            }
        }
        kept_no_duplicates(head, test);
        kept_each(head, test);
        assert forall|i: int| 0 <= i < kept(head, test).len() implies #[trigger] kept(
            head,
            test,
        )[i] != items.last() by {
            assert(head.contains(kept(head, test)[i]));
            let m = choose|m: int| 0 <= m < head.len() && head[m] == kept(head, test)[i];
            assert(items[m] == head[m]);
            assert(items[items.len() - 1] == items.last());
        }
    }
}

/// The byte strings that a list of byte vectors holds.
pub open spec fn byte_strings(list: Seq<Vec<u8>>) -> Seq<Seq<u8>> {
    list.map_values(|bytes: Vec<u8>| bytes@)
}

/// The texts that a list of strings holds.
pub open spec fn texts(list: Seq<String>) -> Seq<Seq<char>> {
    list.map_values(|text: String| text@)
}

/// Whether two byte vectors hold the same bytes.
pub fn same_bytes(a: &Vec<u8>, b: &Vec<u8>) -> (same: bool)
    ensures
        same == (a@ == b@),
{
    if a.len() != b.len() {
        return false;
    }
    let mut i: usize = 0;
    while i < a.len()
        invariant
            i <= a@.len(),
            a@.len() == b@.len(),
            forall|k: int| 0 <= k < i ==> a@[k] == b@[k],
        decreases a@.len() - i,
    {
        if a[i] != b[i] {
            return false;
        }
        i = i + 1;
    }
    assert(a@ =~= b@);
    true
}

/// A copy of a byte vector.
pub fn copy_bytes(bytes: &Vec<u8>) -> (copy: Vec<u8>)
    ensures
        copy@ == bytes@,
{
    let mut copy: Vec<u8> = Vec::new();
    let mut i: usize = 0;
    while i < bytes.len()
        invariant
            i <= bytes@.len(),
            copy@ == bytes@.take(i as int),
        decreases bytes@.len() - i,
    {
        copy.push(bytes[i]);
        i = i + 1;
        assert(copy@ =~= bytes@.take(i as int));
    }
    assert(bytes@.take(i as int) =~= bytes@);
    copy
}

/// The first position of a byte string in a list.
pub open spec fn position_of(list: Seq<Seq<u8>>, bytes: Seq<u8>) -> Option<int>
    decreases list.len(),
{
    if list.len() == 0 {
        None
    } else {
        match position_of(list.drop_last(), bytes) {
            Some(i) => Some(i),
            None => if list.last() == bytes {
                Some(list.len() - 1)
            } else {
                None
            },
        }
    }
}

/// A position that is found holds the byte string, and is the first to do so.
pub proof fn position_of_is_first(list: Seq<Seq<u8>>, bytes: Seq<u8>)
    ensures
        position_of(list, bytes) is Some <==> list.contains(bytes),
        position_of(list, bytes) matches Some(i) ==> 0 <= i < list.len() && list[i] == bytes && (
        forall|k: int| 0 <= k < i ==> #[trigger] list[k] != bytes),
    decreases list.len(),
{
    if list.len() > 0 {
        position_of_is_first(list.drop_last(), bytes);
        assert(list =~= list.drop_last().push(list.last()));
        contains_push(list.drop_last(), list.last(), bytes);
        assert forall|k: int| 0 <= k < list.len() - 1 implies #[trigger] list[k]
            == list.drop_last()[k] by {}
        if position_of(list.drop_last(), bytes) is None {
            assert forall|k: int| 0 <= k < list.len() - 1 implies #[trigger] list[k] != bytes by {
                assert(list.drop_last()[k] == list[k]);
                assert(!list.drop_last().contains(bytes));
            }
        }
    }
}

/// In a list without repetitions a byte string is found where it stands.
pub proof fn position_of_unique(list: Seq<Seq<u8>>, i: int)
    requires
        0 <= i < list.len(),
        list.no_duplicates(),
    ensures
        position_of(list, list[i]) == Some(i),
{
    position_of_is_first(list, list[i]);
    assert(list.contains(list[i]));
}

/// A machine index as an integer.
pub open spec fn index_of(position: Option<usize>) -> Option<int> {
    match position {
        Some(i) => Some(i as int),
        None => None,
    }
}

/// The first position of a byte string in a list.
pub fn find_bytes(list: &Vec<Vec<u8>>, bytes: &Vec<u8>) -> (position: Option<usize>)
    ensures
        index_of(position) == position_of(byte_strings(list@), bytes@),
        position matches Some(i) ==> i < list@.len() && list@[i as int]@ == bytes@,
        position is Some <==> byte_strings(list@).contains(bytes@),
{
    proof {
        position_of_is_first(byte_strings(list@), bytes@);
    }
    let mut i: usize = 0;
    while i < list.len()
        invariant
            i <= list@.len(),
            position_of(byte_strings(list@).take(i as int), bytes@) is None,
        decreases list@.len() - i,
    {
        assert(byte_strings(list@).take(i + 1).drop_last() =~= byte_strings(list@).take(i as int));
        if same_bytes(&list[i], bytes) {
            proof {
                prefix_position(byte_strings(list@), bytes@, i + 1);
            }
            return Some(i);
        }
        i = i + 1;
    }
    assert(byte_strings(list@).take(i as int) =~= byte_strings(list@));
    None
}

pub proof fn prefix_position(list: Seq<Seq<u8>>, bytes: Seq<u8>, n: int)
    requires
        0 <= n <= list.len(),
        position_of(list.take(n), bytes) is Some,
    ensures
        position_of(list, bytes) == position_of(list.take(n), bytes),
    decreases list.len() - n,
{
    if n < list.len() {
        assert(list.take(n + 1).drop_last() =~= list.take(n));
        prefix_position(list, bytes, n + 1);
    } else {
        assert(list.take(n) =~= list);
    }
}

/// Whether a list holds a byte string.
pub fn holds_bytes(list: &Vec<Vec<u8>>, bytes: &Vec<u8>) -> (held: bool)
    ensures
        held == byte_strings(list@).contains(bytes@),
{
    find_bytes(list, bytes).is_some()
}

/// A copy of a list of byte vectors.
pub fn copy_byte_list(list: &Vec<Vec<u8>>) -> (copy: Vec<Vec<u8>>)
    ensures
        byte_strings(copy@) == byte_strings(list@),
{
    let mut copy: Vec<Vec<u8>> = Vec::new();
    let mut i: usize = 0;
    while i < list.len()
        invariant
            i <= list@.len(),
            byte_strings(copy@) == byte_strings(list@).take(i as int),
        decreases list@.len() - i,
    {
        let ghost was = byte_strings(copy@);
        copy.push(copy_bytes(&list[i]));
        assert(byte_strings(copy@) =~= was.push(list@[i as int]@));
        i = i + 1;
        assert(byte_strings(copy@) =~= byte_strings(list@).take(i as int));
    }
    assert(byte_strings(list@).take(i as int) =~= byte_strings(list@));
    copy
}

/// Keeps those byte strings of a list that are also in another one.
pub fn keep_common(list: &Vec<Vec<u8>>, other: &Vec<Vec<u8>>) -> (common: Vec<Vec<u8>>)
    ensures
        byte_strings(common@) == kept(
            byte_strings(list@),
            |bytes: Seq<u8>| byte_strings(other@).contains(bytes),
        ),
{
    let ghost test = |bytes: Seq<u8>| byte_strings(other@).contains(bytes);
    let mut common: Vec<Vec<u8>> = Vec::new();
    let mut i: usize = 0;
    while i < list.len()
        invariant
            i <= list@.len(),
            test == (|bytes: Seq<u8>| byte_strings(other@).contains(bytes)),
            byte_strings(common@) == kept(byte_strings(list@).take(i as int), test),
        decreases list@.len() - i,
    {
        assert(byte_strings(list@).take(i + 1).drop_last() =~= byte_strings(list@).take(i as int));
        if holds_bytes(other, &list[i]) {
            let ghost was = byte_strings(common@);
            common.push(copy_bytes(&list[i]));
            assert(byte_strings(common@) =~= was.push(list@[i as int]@));
        }
        i = i + 1;
    }
    assert(byte_strings(list@).take(i as int) =~= byte_strings(list@));
    common
}

/// Keeps those byte strings of a list that are not in another one.
pub fn keep_others(list: &Vec<Vec<u8>>, other: &Vec<Vec<u8>>) -> (rest: Vec<Vec<u8>>)
    ensures
        byte_strings(rest@) == kept(
            byte_strings(list@),
            |bytes: Seq<u8>| !byte_strings(other@).contains(bytes),
        ),
        rest@.len() <= list@.len(),
{
    let ghost test = |bytes: Seq<u8>| !byte_strings(other@).contains(bytes);
    let mut rest: Vec<Vec<u8>> = Vec::new();
    let mut i: usize = 0;
    while i < list.len()
        invariant
            i <= list@.len(),
            test == (|bytes: Seq<u8>| !byte_strings(other@).contains(bytes)),
            byte_strings(rest@) == kept(byte_strings(list@).take(i as int), test),
            rest@.len() <= i,
        decreases list@.len() - i,
    {
        assert(byte_strings(list@).take(i + 1).drop_last() =~= byte_strings(list@).take(i as int));
        if !holds_bytes(other, &list[i]) {
            let ghost was = byte_strings(rest@);
            rest.push(copy_bytes(&list[i]));
            assert(byte_strings(rest@) =~= was.push(list@[i as int]@));
        }
        i = i + 1;
    }
    assert(byte_strings(list@).take(i as int) =~= byte_strings(list@));
    rest
}

/// A list with later repetitions left out.
pub open spec fn distinct(list: Seq<Seq<u8>>) -> Seq<Seq<u8>>
    decreases list.len(),
{
    if list.len() == 0 {
        list
    } else {
        let head = distinct(list.drop_last());
        if head.contains(list.last()) {
            head
        } else {
            head.push(list.last())
        }
    }
}

/// A list with what is missing from another one put at its end.
pub open spec fn added(list: Seq<Seq<u8>>, more: Seq<Seq<u8>>) -> Seq<Seq<u8>>
    decreases more.len(),
{
    if more.len() == 0 {
        list
    } else {
        let head = added(list, more.drop_last());
        if head.contains(more.last()) {
            head
        } else {
            head.push(more.last())
        }
    }
}

/// Adds the byte strings that a list is missing.
pub fn add_bytes(list: &mut Vec<Vec<u8>>, more: &Vec<Vec<u8>>)
    ensures
        byte_strings(final(list)@) == added(byte_strings(old(list)@), byte_strings(more@)),
{
    let ghost base = byte_strings(list@);
    let ghost all = byte_strings(more@);
    let mut k: usize = 0;
    assert(all.take(0) =~= Seq::<Seq<u8>>::empty());
    while k < more.len()
        invariant
            k <= more@.len(),
            all == byte_strings(more@),
            byte_strings(list@) == added(base, all.take(k as int)),
        decreases more@.len() - k,
    {
        assert(all.take(k + 1).drop_last() =~= all.take(k as int));
        if !holds_bytes(list, &more[k]) {
            let ghost was = byte_strings(list@);
            list.push(copy_bytes(&more[k]));
            assert(byte_strings(list@) =~= was.push(all[k as int]));
        }
        k = k + 1;
    }
    assert(all.take(k as int) =~= all);
}

/// Keeps those of some positions whose flag is set.
pub fn keep_flagged(order: &Vec<usize>, flags: &Vec<bool>) -> (rest: Vec<usize>)
    requires
        forall|k: int| 0 <= k < order@.len() ==> #[trigger] order@[k] < flags@.len(),
    ensures
        rest@ == kept(order@, |i: usize| flags@[i as int]),
        forall|k: int| 0 <= k < rest@.len() ==> #[trigger] rest@[k] < flags@.len(),
        rest@.len() <= order@.len(),
{
    let ghost test = |i: usize| flags@[i as int];
    let mut rest: Vec<usize> = Vec::new();
    let mut k: usize = 0;
    while k < order.len()
        invariant
            k <= order@.len(),
            test == (|i: usize| flags@[i as int]),
            forall|k: int| 0 <= k < order@.len() ==> #[trigger] order@[k] < flags@.len(),
            rest@ == kept(order@.take(k as int), test),
            forall|k: int| 0 <= k < rest@.len() ==> #[trigger] rest@[k] < flags@.len(),
            rest@.len() <= k,
        decreases order@.len() - k,
    {
        assert(order@.take(k + 1).drop_last() =~= order@.take(k as int));
        let i = order[k];
        if flags[i] {
            rest.push(i);
        }
        k = k + 1;
    }
    assert(order@.take(k as int) =~= order@);
    rest
}

/// A list of texts with later repetitions left out.
pub open spec fn distinct_texts(list: Seq<Seq<char>>) -> Seq<Seq<char>>
    decreases list.len(),
{
    if list.len() == 0 {
        list
    } else {
        let head = distinct_texts(list.drop_last());
        if head.contains(list.last()) {
            head
        } else {
            head.push(list.last())
        }
    }
}

/// Whether a list holds a text.
pub fn holds_text(list: &Vec<String>, text: &str) -> (held: bool)
    ensures
        held == texts(list@).contains(text@),
{
    let mut i: usize = 0;
    while i < list.len()
        invariant
            i <= list@.len(),
            forall|k: int| 0 <= k < i ==> #[trigger] texts(list@)[k] != text@,
        decreases list@.len() - i,
    {
        assert(texts(list@)[i as int] == list@[i as int]@);
        if same_text(list[i].as_str(), text) {
            return true;
        }
        i = i + 1;
    }
    false
}

/// Adds a text to a list unless it is there.
pub fn add_text(list: &mut Vec<String>, text: &str)
    ensures
        texts(final(list)@) == if texts(old(list)@).contains(text@) {
            texts(old(list)@)
        } else {
            texts(old(list)@).push(text@)
        },
{
    if !holds_text(list, text) {
        let ghost was = texts(list@);
        list.push(owned(text));
        assert(texts(list@) =~= was.push(text@));
    }
}

/// The texts in alphabetical order.
pub open spec fn sorted_texts(list: Seq<Seq<char>>) -> Seq<Seq<char>> {
    stably_sorted(list, |a: Seq<char>, b: Seq<char>| text_before(a, b))
}

/// Puts texts in alphabetical order.
pub fn sort_texts(list: &Vec<String>) -> (sorted: Vec<String>)
    ensures
        texts(sorted@) == sorted_texts(texts(list@)),
        sorted@.len() == list@.len(),
{
    let ghost before = |a: Seq<char>, b: Seq<char>| text_before(a, b);
    let mut sorted: Vec<String> = Vec::new();
    let mut i: usize = 0;
    while i < list.len()
        invariant
            i <= list@.len(),
            before == (|a: Seq<char>, b: Seq<char>| text_before(a, b)),
            texts(sorted@) == stably_sorted(texts(list@).take(i as int), before),
            sorted@.len() == i,
        decreases list@.len() - i,
    {
        let item = list[i].clone();
        let mut at: usize = sorted.len();
        while at > 0 && is_text_before(item.as_str(), sorted[at - 1].as_str())
            invariant
                at <= sorted@.len(),
                before == (|a: Seq<char>, b: Seq<char>| text_before(a, b)),
                forall|k: int|
                    at <= k < sorted@.len() ==> before(item@, #[trigger] texts(sorted@)[k]),
            decreases at,
        {
            at = at - 1;
            assert(texts(sorted@)[at as int] == sorted@[at as int]@);
        }
        let ghost was = texts(sorted@);
        proof {
            placed_splits(was, item@, before, at as int);
            assert(texts(list@).take(i + 1).drop_last() =~= texts(list@).take(i as int));
        }
        sorted.insert(at, item);
        assert(texts(sorted@) =~= was.insert(at as int, list@[i as int]@));
        i = i + 1;
    }
    assert(texts(list@).take(i as int) =~= texts(list@));
    sorted
}

} // verus!
