//! What holds of peer management as a whole.
use crate::app::{PeerManagementFilter, PeerScreenView};
use crate::geometry::monus;
use crate::lists::{
    kept, kept_contains, kept_no_duplicates, kept_twice, sorting_commutes_with_keeping,
};
use crate::order::{
    by_number, by_text, directed, in_order, is_weak_order, or_by, other_direction, reversed,
    stably_sorted_is_in_order, stably_sorted_keeps_items, Comparison, SortDirection,
};
use crate::peer_manager::{by_ip, normalized_ip, IpAddr, PeerManagerTrackedPeer, RestrictedPeer};
use crate::text::{text_before, text_before_irreflexive, text_before_total, text_before_transitive};
use crate::tui::layout::common::nearest_visible_is_visible;
use crate::tui::screens::peers::columns::{
    peer_columns_at_width, peer_columns_on_view_exist, peer_sorted_by,
    state_address_and_evidence_are_always_visible, PeerColumnId,
};
use crate::tui::screens::peers::details::{
    details_max_scroll, details_page, matching_records, peer_page, peer_table_width, pinned_row,
};
use crate::tui::screens::peers::labels::shown_torrent;
use crate::tui::screens::peers::evidence::{by_ratio, flag_rank, shares_chain};
use crate::tui::screens::peers::rows::{facts_at, known_ips, tracked_ips, with_ip, PeerFacts};
use crate::tui::screens::peers::table::{
    all_facts, by_default, by_peer_column, by_restricted, by_seen, first_expiry, on_view,
    passes_filter, peer_comparison, peer_query_matches, peer_rows, recomputed, refreshed, table_order, PeerModel,
};
use crate::tui::screens::peers::{
    changes_rows, details_scrolled, peer_acted, peer_columns_clamped, peer_reduced,
    selected_peer_column, selection_at, selection_moved, PeerManagementAction,
};
use vstd::prelude::*;

verus! {

// ----------------------------------------------------------------- the order

/// How three things compare to one another makes sense: turning a comparison
/// round reverses it, what is equal compares alike to the third, and precedence
/// chains.
pub open spec fn chains(
    ab: Comparison,
    ba: Comparison,
    bc: Comparison,
    cb: Comparison,
    ac: Comparison,
    ca: Comparison,
) -> bool {
    &&& ba == reversed(ab)
    &&& cb == reversed(bc)
    &&& ca == reversed(ac)
    &&& ab == Comparison::Less && bc == Comparison::Less ==> ac == Comparison::Less
    &&& ab == Comparison::Greater && bc == Comparison::Greater ==> ac == Comparison::Greater
    &&& ab == Comparison::Equal ==> ac == bc
    &&& bc == Comparison::Equal ==> ac == ab
}

pub open spec fn chains_at(
    f: spec_fn(PeerFacts, PeerFacts) -> Comparison,
    a: PeerFacts,
    b: PeerFacts,
    c: PeerFacts,
) -> bool {
    chains(f(a, b), f(b, a), f(b, c), f(c, b), f(a, c), f(c, a))
}

proof fn ties_chain(
    f: spec_fn(PeerFacts, PeerFacts) -> Comparison,
    g: spec_fn(PeerFacts, PeerFacts) -> Comparison,
    a: PeerFacts,
    b: PeerFacts,
    c: PeerFacts,
)
    requires
        chains_at(f, a, b, c),
        chains_at(g, a, b, c),
    ensures
        chains_at(|x: PeerFacts, y: PeerFacts| or_by(f(x, y), g(x, y)), a, b, c),
{
}

proof fn directions_chain(
    f: spec_fn(PeerFacts, PeerFacts) -> Comparison,
    direction: SortDirection,
    a: PeerFacts,
    b: PeerFacts,
    c: PeerFacts,
)
    requires
        chains_at(f, a, b, c),
    ensures
        chains_at(|x: PeerFacts, y: PeerFacts| directed(f(x, y), direction), a, b, c),
        chains_at(|x: PeerFacts, y: PeerFacts| f(y, x), a, b, c),
        chains_at(|x: PeerFacts, y: PeerFacts| reversed(f(x, y)), a, b, c),
{
}

proof fn texts_compare(a: Seq<char>, b: Seq<char>)
    ensures
        by_text(b, a) == reversed(by_text(a, b)),
        by_text(a, b) == Comparison::Equal <==> a == b,
{
    text_before_irreflexive(a);
    text_before_total(a, b);
    if text_before(a, b) && text_before(b, a) {
        text_before_transitive(a, b, a);
    }
}

proof fn texts_chain(a: Seq<char>, b: Seq<char>, c: Seq<char>)
    ensures
        chains(by_text(a, b), by_text(b, a), by_text(b, c), by_text(c, b), by_text(a, c), by_text(c, a)),
{
    texts_compare(a, b);
    texts_compare(b, c);
    texts_compare(a, c);
    if text_before(a, b) && text_before(b, c) {
        text_before_transitive(a, b, c);
    }
    if text_before(c, b) && text_before(b, a) {
        text_before_transitive(c, b, a);
    }
}

proof fn ratios_chain(a: PeerFacts, b: PeerFacts, c: PeerFacts)
    ensures
        chains_at(|x: PeerFacts, y: PeerFacts| by_ratio(x.evidence, y.evidence), a, b, c),
{
    let (p, q, r) = (a.evidence, b.evidence, c.evidence);
    shares_chain(p, q, r);
    shares_chain(r, q, p);
    shares_chain(q, r, p);
    shares_chain(p, r, q);
}

proof fn columns_chain(column: PeerColumnId, a: PeerFacts, b: PeerFacts, c: PeerFacts)
    ensures
        chains_at(|x: PeerFacts, y: PeerFacts| by_peer_column(column, x, y), a, b, c),
{
    let f = |x: PeerFacts, y: PeerFacts| by_peer_column(column, x, y);
    if column == PeerColumnId::Client {
        texts_chain(a.client, b.client, c.client);
    } else if column == PeerColumnId::Evidence {
        ratios_chain(a, b, c);
        let g = |x: PeerFacts, y: PeerFacts| by_ratio(x.evidence, y.evidence);
        assert(f =~= g);
    }
}

proof fn ips_chain(a: PeerFacts, b: PeerFacts, c: PeerFacts)
    ensures
        chains_at(|x: PeerFacts, y: PeerFacts| by_ip(x.ip, y.ip), a, b, c),
        chains_at(|x: PeerFacts, y: PeerFacts| by_seen(x, y), a, b, c),
        chains_at(|x: PeerFacts, y: PeerFacts| by_restricted(x, y), a, b, c),
{
}

proof fn defaults_chain(a: PeerFacts, b: PeerFacts, c: PeerFacts)
    ensures
        chains_at(|x: PeerFacts, y: PeerFacts| by_default(x, y), a, b, c),
{
    let f1 = |x: PeerFacts, y: PeerFacts| by_restricted(x, y);
    let f2 = |x: PeerFacts, y: PeerFacts| by_ratio(x.evidence, y.evidence);
    let f3 = |x: PeerFacts, y: PeerFacts|
        by_number(flag_rank(x.is_active), flag_rank(y.is_active));
    let f4 = |x: PeerFacts, y: PeerFacts| by_seen(x, y);
    let f5 = |x: PeerFacts, y: PeerFacts| by_ip(x.ip, y.ip);
    ips_chain(a, b, c);
    ratios_chain(a, b, c);
    let g1 = |x: PeerFacts, y: PeerFacts| or_by(f1(x, y), f2(x, y));
    ties_chain(f1, f2, a, b, c);
    let g2 = |x: PeerFacts, y: PeerFacts| or_by(g1(x, y), f3(x, y));
    ties_chain(g1, f3, a, b, c);
    let g3 = |x: PeerFacts, y: PeerFacts| or_by(g2(x, y), f4(x, y));
    ties_chain(g2, f4, a, b, c);
    let g4 = |x: PeerFacts, y: PeerFacts| reversed(g3(x, y));
    directions_chain(g3, SortDirection::Ascending, a, b, c);
    ties_chain(g4, f5, a, b, c);
    let all = |x: PeerFacts, y: PeerFacts| or_by(g4(x, y), f5(x, y));
    assert(all =~= |x: PeerFacts, y: PeerFacts| by_default(x, y));
}

/// Comparing rows makes sense whatever column they are sorted by, and in either
/// direction.
pub proof fn comparisons_chain(
    column: Option<PeerColumnId>,
    direction: SortDirection,
    a: PeerFacts,
    b: PeerFacts,
    c: PeerFacts,
)
    ensures
        chains_at(|x: PeerFacts, y: PeerFacts| peer_comparison(column, direction, x, y), a, b, c),
        peer_comparison(column, direction, a, a) == Comparison::Equal,
{
    let whole = |x: PeerFacts, y: PeerFacts| peer_comparison(column, direction, x, y);
    match column {
        None => {
            defaults_chain(a, b, c);
            defaults_chain(a, a, a);
            assert(whole =~= |x: PeerFacts, y: PeerFacts| by_default(x, y));
            assert(whole(a, a) == by_default(a, a));
        },
        Some(id) => {
            let by_column = |x: PeerFacts, y: PeerFacts| by_peer_column(id, x, y);
            columns_chain(id, a, b, c);
            columns_chain(id, a, a, a);
            let sorted = |x: PeerFacts, y: PeerFacts| directed(by_column(x, y), direction);
            directions_chain(by_column, direction, a, b, c);
            directions_chain(by_column, direction, a, a, a);
            ips_chain(a, b, c);
            ips_chain(a, a, a);
            let restricted = |x: PeerFacts, y: PeerFacts| by_restricted(x, y);
            let unrestricted = |x: PeerFacts, y: PeerFacts| restricted(y, x);
            directions_chain(restricted, direction, a, b, c);
            let seen = |x: PeerFacts, y: PeerFacts| by_seen(x, y);
            let newest = |x: PeerFacts, y: PeerFacts| seen(y, x);
            directions_chain(seen, direction, a, b, c);
            let ip = |x: PeerFacts, y: PeerFacts| by_ip(x.ip, y.ip);
            let blocked_first = |x: PeerFacts, y: PeerFacts|
                or_by(unrestricted(x, y), sorted(x, y));
            ties_chain(unrestricted, sorted, a, b, c);
            let first = |x: PeerFacts, y: PeerFacts|
                if id == PeerColumnId::State {
                    blocked_first(x, y)
                } else {
                    sorted(x, y)
                };
            assert(chains_at(first, a, b, c));
            let then_newest = |x: PeerFacts, y: PeerFacts| or_by(first(x, y), newest(x, y));
            ties_chain(first, newest, a, b, c);
            let second = |x: PeerFacts, y: PeerFacts|
                if id == PeerColumnId::LastSeen {
                    first(x, y)
                } else {
                    then_newest(x, y)
                };
            assert(chains_at(second, a, b, c));
            let all = |x: PeerFacts, y: PeerFacts| or_by(second(x, y), ip(x, y));
            ties_chain(second, ip, a, b, c);
            assert(all =~= whole);
            assert(sorted(a, a) == reversed(sorted(a, a)));
        },
    }
}

/// The order of the table is an order.
pub proof fn table_order_is_an_order(m: PeerModel)
    ensures
        is_weak_order(table_order(m)),
{
    let column = peer_sorted_by(m.pm.sort_column_index);
    let direction = m.pm.sort_direction;
    let before = table_order(m);
    let whole = |x: PeerFacts, y: PeerFacts| peer_comparison(column, direction, x, y);
    assert forall|a: PeerFacts| !#[trigger] before(a, a) by {
        comparisons_chain(column, direction, a, a, a);
    }
    assert forall|a: PeerFacts, b: PeerFacts, c: PeerFacts| #[trigger]
        before(a, b) && #[trigger] before(b, c) implies before(a, c) by {
        comparisons_chain(column, direction, a, b, c);
        assert(chains_at(whole, a, b, c));
    }
    assert forall|a: PeerFacts, b: PeerFacts, c: PeerFacts| !#[trigger]
        before(a, b) && !#[trigger] before(b, c) implies !before(a, c) by {
        comparisons_chain(column, direction, a, b, c);
        assert(chains_at(whole, a, b, c));
    }
}

/// The rows come in the order of the table: none comes after one that it strictly
/// precedes.
pub proof fn rows_are_in_order(m: PeerModel, now: u128)
    ensures
        in_order(peer_rows(m, now), table_order(m)),
{
    table_order_is_an_order(m);
    stably_sorted_is_in_order(
        kept(all_facts(m, now), |row: PeerFacts| on_view(m, row)),
        table_order(m),
    );
}

/// In a sort by state every blocked peer comes before every other one, whatever
/// the direction.
pub proof fn blocked_peers_come_first(m: PeerModel, now: u128, i: int, j: int)
    requires
        peer_sorted_by(m.pm.sort_column_index) == Some(PeerColumnId::State),
        0 <= i < peer_rows(m, now).len(),
        0 <= j < peer_rows(m, now).len(),
        peer_rows(m, now)[i].restriction is Some,
        peer_rows(m, now)[j].restriction is None,
    ensures
        i < j,
{
    let rows = peer_rows(m, now);
    rows_are_in_order(m, now);
    assert(table_order(m)(rows[i], rows[j]));
    if j < i {
        assert(!table_order(m)(rows[i], rows[j]));
    }
}

// ------------------------------------------------------------------ the rows

proof fn adding_keeps_addresses_apart(list: Seq<IpAddr>, ip: IpAddr)
    requires
        list.no_duplicates(),
    ensures
        with_ip(list, ip).no_duplicates(),
        with_ip(list, ip).contains(ip),
        forall|x: IpAddr| list.contains(x) ==> #[trigger] with_ip(list, ip).contains(x),
        forall|x: IpAddr| #[trigger] with_ip(list, ip).contains(x) ==> list.contains(x) || x == ip,
{
    if !list.contains(ip) {
        let more = list.push(ip);
        assert(more[list.len() as int] == ip);
        assert forall|x: IpAddr| list.contains(x) implies #[trigger] more.contains(x) by {
            let k = choose|k: int| 0 <= k < list.len() && list[k] == x;
            assert(more[k] == x);
        }
    }
}

/// Whether an address is that of a peer or under a restriction that still holds.
pub open spec fn is_known(
    peers: Seq<PeerManagerTrackedPeer>,
    restrictions: Seq<RestrictedPeer>,
    now: u128,
    ip: IpAddr,
) -> bool {
    ||| exists|k: int| 0 <= k < peers.len() && normalized_ip(#[trigger] peers[k].ip) == ip
    ||| exists|k: int|
        0 <= k < restrictions.len() && normalized_ip((#[trigger] restrictions[k]).ip) == ip
            && restrictions[k].restriction.blocked_until > now
}

proof fn tracked_addresses(peers: Seq<PeerManagerTrackedPeer>)
    ensures
        tracked_ips(peers).no_duplicates(),
        forall|ip: IpAddr| #[trigger]
            tracked_ips(peers).contains(ip) <==> exists|k: int|
                0 <= k < peers.len() && normalized_ip(#[trigger] peers[k].ip) == ip,
    decreases peers.len(),
{
    if peers.len() > 0 {
        let head = peers.drop_last();
        let last = normalized_ip(peers.last().ip);
        tracked_addresses(head);
        adding_keeps_addresses_apart(tracked_ips(head), last);
        assert forall|ip: IpAddr| #[trigger] tracked_ips(peers).contains(ip) implies exists|k: int|
            0 <= k < peers.len() && normalized_ip(#[trigger] peers[k].ip) == ip by {
            if tracked_ips(head).contains(ip) {
                let k = choose|k: int|
                    0 <= k < head.len() && normalized_ip(#[trigger] head[k].ip) == ip;
                assert(normalized_ip(peers[k].ip) == ip);
            } else {
                assert(normalized_ip(peers[peers.len() - 1].ip) == ip);
            }
        }
        assert forall|ip: IpAddr|
            (exists|k: int| 0 <= k < peers.len() && normalized_ip(#[trigger] peers[k].ip) == ip)
                implies #[trigger] tracked_ips(peers).contains(ip) by {
            let k = choose|k: int|
                0 <= k < peers.len() && normalized_ip(#[trigger] peers[k].ip) == ip;
            if k < head.len() {
                assert(normalized_ip(head[k].ip) == ip);
                assert(tracked_ips(head).contains(ip));
            }
        }
    }
}

/// There is one address for each peer and each restriction that still holds, and
/// no address twice.
pub proof fn every_known_address_counts_once(
    peers: Seq<PeerManagerTrackedPeer>,
    restrictions: Seq<RestrictedPeer>,
    now: u128,
)
    ensures
        known_ips(peers, restrictions, now).no_duplicates(),
        forall|ip: IpAddr| #[trigger]
            known_ips(peers, restrictions, now).contains(ip) <==> is_known(
                peers,
                restrictions,
                now,
                ip,
            ),
    decreases restrictions.len(),
{
    tracked_addresses(peers);
    if restrictions.len() > 0 {
        let head = restrictions.drop_last();
        let last = restrictions.last();
        every_known_address_counts_once(peers, head, now);
        adding_keeps_addresses_apart(known_ips(peers, head, now), normalized_ip(last.ip));
        assert forall|ip: IpAddr| #[trigger]
            known_ips(peers, restrictions, now).contains(ip) <==> is_known(
                peers,
                restrictions,
                now,
                ip,
            ) by {
            if known_ips(peers, head, now).contains(ip) && !tracked_ips(peers).contains(ip) {
                let k = choose|k: int|
                    0 <= k < head.len() && normalized_ip((#[trigger] head[k]).ip) == ip
                        && head[k].restriction.blocked_until > now;
                assert(normalized_ip(restrictions[k].ip) == ip);
            }
            if normalized_ip(last.ip) == ip && last.restriction.blocked_until > now {
                assert(normalized_ip(restrictions[restrictions.len() - 1].ip) == ip);
            }
            if exists|k: int|
                0 <= k < restrictions.len() && normalized_ip((#[trigger] restrictions[k]).ip) == ip
                    && restrictions[k].restriction.blocked_until > now {
                let k = choose|k: int|
                    0 <= k < restrictions.len() && normalized_ip((#[trigger] restrictions[k]).ip)
                        == ip && restrictions[k].restriction.blocked_until > now;
                if k < head.len() {
                    assert(normalized_ip(head[k].ip) == ip);
                    assert(is_known(peers, head, now, ip));
                }
            }
        }
    }
}

/// A row is in the table if and only if it holds what is known of an address, and
/// passes the filter and the search; and no row is there twice.
pub proof fn rows_are_the_addresses_on_view(m: PeerModel, now: u128)
    ensures
        forall|row: PeerFacts| #[trigger]
            peer_rows(m, now).contains(row) <==> row == facts_at(
                m.peers,
                m.restrictions,
                row.ip,
                now,
            ) && is_known(m.peers, m.restrictions, now, row.ip) && on_view(m, row),
        forall|i: int, j: int|
            0 <= i < j < peer_rows(m, now).len() ==> #[trigger] peer_rows(m, now)[i].ip
                != #[trigger] peer_rows(m, now)[j].ip,
{
    broadcast use vstd::seq_lib::group_to_multiset_ensures;

    let all = all_facts(m, now);
    let ips = known_ips(m.peers, m.restrictions, now);
    let test = |row: PeerFacts| on_view(m, row);
    let some = kept(all, test);
    let rows = peer_rows(m, now);
    every_known_address_counts_once(m.peers, m.restrictions, now);
    kept_contains(all, test);
    stably_sorted_keeps_items(some, table_order(m));
    assert forall|i: int, j: int| 0 <= i < all.len() && 0 <= j < all.len() && i != j implies all[i]
        != all[j] by {
        assert(all[i].ip == ips[i] && all[j].ip == ips[j]);
    }
    kept_no_duplicates(all, test);
    assert forall|row: PeerFacts| rows.contains(row) == #[trigger] some.contains(row) by {
        assert(rows.to_multiset().count(row) == some.to_multiset().count(row));
    }
    assert forall|row: PeerFacts| #[trigger] rows.contains(row) <==> row == facts_at(
        m.peers,
        m.restrictions,
        row.ip,
        now,
    ) && is_known(m.peers, m.restrictions, now, row.ip) && on_view(m, row) by {
        assert(rows.contains(row) == some.contains(row));
        assert(some.contains(row) <==> all.contains(row) && test(row));
        if all.contains(row) {
            let k = choose|k: int| 0 <= k < all.len() && all[k] == row;
            assert(ips[k] == row.ip);
            assert(ips.contains(row.ip));
        }
        if row == facts_at(m.peers, m.restrictions, row.ip, now) && ips.contains(row.ip) {
            let k = choose|k: int| 0 <= k < ips.len() && ips[k] == row.ip;
            assert(all[k] == row);
        }
    }
    some.lemma_multiset_has_no_duplicates();
    rows.lemma_multiset_has_no_duplicates_conv();
    assert forall|i: int, j: int| 0 <= i < j < rows.len() implies #[trigger] rows[i].ip
        != #[trigger] rows[j].ip by {
        assert(rows.contains(rows[i]) && rows.contains(rows[j]));
        assert(rows[i] != rows[j]);
    }
}

/// The state with another filter.
pub open spec fn filtered_by(m: PeerModel, filter: PeerManagementFilter) -> PeerModel {
    m.with_pm(PeerScreenView { filter, ..m.pm })
}

/// The table under a filter is what passes it of the table of all peers, in the same
/// order.
pub proof fn filtered_rows_are_part_of_all(m: PeerModel, now: u128, filter: PeerManagementFilter)
    ensures
        peer_rows(filtered_by(m, filter), now) == kept(
            peer_rows(filtered_by(m, PeerManagementFilter::All), now),
            |row: PeerFacts| passes_filter(row, filter),
        ),
{
    let some = filtered_by(m, filter);
    let whole = filtered_by(m, PeerManagementFilter::All);
    let seen = |row: PeerFacts| on_view(whole, row);
    let passes = |row: PeerFacts| passes_filter(row, filter);
    let both = |row: PeerFacts| on_view(some, row);
    let facts = all_facts(m, now);
    assert(table_order(some) =~= table_order(whole));
    table_order_is_an_order(whole);
    kept_twice(facts, seen, passes, both);
    sorting_commutes_with_keeping(kept(facts, seen), table_order(whole), passes);
}

/// The tables of active, recent and restricted peers divide the table of all peers:
/// every row of it is in one of them and its address in no other. A peer under a
/// restriction is among the restricted ones, active or not.
pub proof fn filters_divide_the_table(m: PeerModel, now: u128)
    ensures
        ({
            let all = peer_rows(filtered_by(m, PeerManagementFilter::All), now);
            let active = peer_rows(filtered_by(m, PeerManagementFilter::Active), now);
            let recent = peer_rows(filtered_by(m, PeerManagementFilter::Recent), now);
            let restricted = peer_rows(filtered_by(m, PeerManagementFilter::Restricted), now);
            &&& forall|row: PeerFacts| #[trigger]
                all.contains(row) <==> active.contains(row) || recent.contains(row)
                    || restricted.contains(row)
            &&& forall|i: int, j: int|
                0 <= i < active.len() && 0 <= j < recent.len() ==> (#[trigger] active[i]).ip != (
                #[trigger] recent[j]).ip
            &&& forall|i: int, j: int|
                0 <= i < active.len() && 0 <= j < restricted.len() ==> (#[trigger] active[i]).ip
                    != (#[trigger] restricted[j]).ip
            &&& forall|i: int, j: int|
                0 <= i < recent.len() && 0 <= j < restricted.len() ==> (#[trigger] recent[i]).ip
                    != (#[trigger] restricted[j]).ip
            &&& forall|row: PeerFacts| #[trigger]
                restricted.contains(row) <==> all.contains(row) && row.restriction is Some
        }),
{
    let whole = filtered_by(m, PeerManagementFilter::All);
    let all = peer_rows(whole, now);
    let one = filtered_by(m, PeerManagementFilter::Active);
    let two = filtered_by(m, PeerManagementFilter::Recent);
    let three = filtered_by(m, PeerManagementFilter::Restricted);
    filtered_rows_are_part_of_all(m, now, PeerManagementFilter::Active);
    filtered_rows_are_part_of_all(m, now, PeerManagementFilter::Recent);
    filtered_rows_are_part_of_all(m, now, PeerManagementFilter::Restricted);
    kept_contains(all, |row: PeerFacts| passes_filter(row, PeerManagementFilter::Active));
    kept_contains(all, |row: PeerFacts| passes_filter(row, PeerManagementFilter::Recent));
    kept_contains(all, |row: PeerFacts| passes_filter(row, PeerManagementFilter::Restricted));
    rows_are_the_addresses_on_view(one, now);
    rows_are_the_addresses_on_view(two, now);
    rows_are_the_addresses_on_view(three, now);
    let active = peer_rows(one, now);
    let recent = peer_rows(two, now);
    let restricted = peer_rows(three, now);
    assert forall|i: int| 0 <= i < active.len() implies active.contains(#[trigger] active[i]) by {}
    assert forall|i: int| 0 <= i < recent.len() implies recent.contains(#[trigger] recent[i]) by {}
    assert forall|i: int| 0 <= i < restricted.len() implies restricted.contains(
        #[trigger] restricted[i],
    ) by {}
}

/// What the rows depend on.
pub open spec fn same_rows_input(a: PeerModel, b: PeerModel) -> bool {
    &&& a.peers == b.peers
    &&& a.restrictions == b.restrictions
    &&& a.torrents == b.torrents
    &&& a.privacy == b.privacy
    &&& a.pm.filter == b.pm.filter
    &&& a.pm.search_query == b.pm.search_query
    &&& a.pm.search_mode == b.pm.search_mode
    &&& peer_sorted_by(a.pm.sort_column_index) == peer_sorted_by(b.pm.sort_column_index)
    &&& a.pm.sort_direction == b.pm.sort_direction
}

/// The rows depend on nothing but the peers, the restrictions, the torrents, the
/// filter, the search, the sort, and on whether names are hidden.
pub proof fn rows_depend_on_filter_search_and_sort(a: PeerModel, b: PeerModel, now: u128)
    requires
        same_rows_input(a, b),
    ensures
        peer_rows(a, now) == peer_rows(b, now),
{
    let f = |row: PeerFacts| on_view(a, row);
    let g = |row: PeerFacts| on_view(b, row);
    assert(f =~= g);
    assert(table_order(a) =~= table_order(b));
    assert(all_facts(a, now) =~= all_facts(b, now));
}

/// An action that changes which rows there are leaves those of the state as it
/// then is; any other action leaves the rows alone and works nothing out.
pub proof fn rows_are_worked_out_when_they_change(
    m: PeerModel,
    action: PeerManagementAction,
    now: u128,
)
    ensures
        ({
            let after = peer_reduced(m, action, now);
            if changes_rows(action) {
                &&& after.rows == peer_rows(after, now)
                &&& after.next_expiry == first_expiry(m.restrictions, now)
                &&& m.recomputed < u64::MAX ==> after.recomputed == m.recomputed + 1
            } else {
                &&& after.rows == m.rows
                &&& after.next_expiry == m.next_expiry
                &&& after.recomputed == m.recomputed
            }
        }),
{
    let clean = m.with_pm(PeerScreenView { status_message: None, ..m.pm });
    acting_keeps_what_was_worked_out(clean, action);
    if changes_rows(action) {
        let acted = peer_acted(clean, action);
        rows_depend_on_filter_search_and_sort(acted, peer_reduced(m, action, now), now);
    }
}

proof fn acting_keeps_what_was_worked_out(m: PeerModel, action: PeerManagementAction)
    ensures
        ({
            let after = peer_acted(m, action);
            &&& after.rows == m.rows
            &&& after.next_expiry == m.next_expiry
            &&& after.recomputed == m.recomputed
            &&& after.peers == m.peers
            &&& after.restrictions == m.restrictions
            &&& after.torrents == m.torrents
            &&& after.screen == m.screen
        }),
{
}

proof fn acting_keeps_what_the_rows_depend_on(m: PeerModel, action: PeerManagementAction)
    requires
        !changes_rows(action),
        action == PeerManagementAction::ToNormal ==> m.pm.search_query.len() == 0,
    ensures
        same_rows_input(m, peer_acted(m, action)),
{
    assert(action == PeerManagementAction::ToNormal ==> m.pm.search_query =~= Seq::empty());
    match action {
        PeerManagementAction::MoveUp => {},
        PeerManagementAction::MoveDown => {},
        PeerManagementAction::MovePageUp => {},
        PeerManagementAction::MovePageDown => {},
        PeerManagementAction::ToggleDetails => {},
        _ => {},
    }
}

proof fn mending_columns_keeps_the_rows(m: PeerModel)
    ensures
        same_rows_input(m, peer_columns_clamped(m)),
{
}

/// Rows that are those of the state stay so. Leaving the screen drops the search
/// without working the rows out, so that they stay narrowed if there was one.
pub proof fn rows_stay_those_of_the_state(m: PeerModel, action: PeerManagementAction, now: u128)
    requires
        m.rows == peer_rows(m, now),
        !(action == PeerManagementAction::ToNormal && m.pm.search_query.len() > 0),
    ensures
        peer_reduced(m, action, now).rows == peer_rows(peer_reduced(m, action, now), now),
{
    rows_are_worked_out_when_they_change(m, action, now);
    if !changes_rows(action) {
        let clean = m.with_pm(PeerScreenView { status_message: None, ..m.pm });
        let acted = peer_acted(clean, action);
        acting_keeps_what_the_rows_depend_on(clean, action);
        mending_columns_keeps_the_rows(acted);
        rows_depend_on_filter_search_and_sort(m, clean, now);
        rows_depend_on_filter_search_and_sort(clean, acted, now);
        rows_depend_on_filter_search_and_sort(acted, peer_columns_clamped(acted), now);
    }
}

// ------------------------------------------------------------- the selection

/// The selection is on a row, or at the top if there is none.
pub open spec fn selection_is_on_a_row(m: PeerModel) -> bool {
    0 <= m.pm.selected_index < m.rows.len() || m.rows.len() == 0 && m.pm.selected_index == 0
}

proof fn moving_leaves_a_position(pm: PeerScreenView, rows: int, delta: int, index: int)
    requires
        0 <= pm.selected_index,
        0 <= rows,
        0 <= index,
    ensures
        rows > 0 ==> 0 <= selection_moved(pm, rows, delta).selected_index < rows,
        rows > 0 ==> 0 <= selection_at(pm, rows, index).selected_index < rows,
        rows == 0 ==> selection_moved(pm, rows, delta).selected_index == 0,
        rows == 0 ==> selection_at(pm, rows, index).selected_index == 0,
{
}

proof fn acting_leaves_a_position(m: PeerModel, action: PeerManagementAction)
    requires
        0 <= m.pm.selected_index,
    ensures
        0 <= peer_acted(m, action).pm.selected_index,
        selection_is_on_a_row(m) ==> selection_is_on_a_row(peer_acted(m, action)),
{
    let rows = m.rows.len() as int;
    match action {
        PeerManagementAction::MoveUp => moving_leaves_a_position(m.pm, rows, -1, 0),
        PeerManagementAction::MoveDown => moving_leaves_a_position(m.pm, rows, 1, 0),
        PeerManagementAction::MovePageUp => moving_leaves_a_position(m.pm, rows, -peer_page(m), 0),
        PeerManagementAction::MovePageDown => moving_leaves_a_position(m.pm, rows, peer_page(m), 0),
        PeerManagementAction::MoveFirst => moving_leaves_a_position(m.pm, rows, 0, 0),
        PeerManagementAction::MoveLast => moving_leaves_a_position(m.pm, rows, 0, monus(rows, 1)),
        PeerManagementAction::ToggleDetails => {},
        PeerManagementAction::MoveColumnLeft => {},
        PeerManagementAction::MoveColumnRight => {},
        _ => {},
    }
}

/// Every action leaves the selection on a row.
pub proof fn every_action_leaves_the_selection_on_a_row(
    m: PeerModel,
    action: PeerManagementAction,
    now: u128,
)
    requires
        selection_is_on_a_row(m),
    ensures
        selection_is_on_a_row(peer_reduced(m, action, now)),
{
    let clean = m.with_pm(PeerScreenView { status_message: None, ..m.pm });
    acting_leaves_a_position(clean, action);
    acting_keeps_what_was_worked_out(clean, action);
}

/// Whatever the session reports, working the rows out leaves the selection on a
/// row: where it was, as long as there are enough rows.
pub proof fn working_out_keeps_the_position(m: PeerModel, now: u128)
    requires
        0 <= m.pm.selected_index,
    ensures
        selection_is_on_a_row(recomputed(m, now)),
        m.pm.selected_index < peer_rows(m, now).len() ==> recomputed(m, now).pm == m.pm,
{
}

/// Sorting keeps the selection at its position, and neither adds nor drops a row.
pub proof fn sorting_keeps_the_position(m: PeerModel, now: u128)
    requires
        selection_is_on_a_row(m),
        m.rows == peer_rows(m, now),
    ensures
        ({
            let after = peer_reduced(m, PeerManagementAction::SortBySelectedColumn, now);
            &&& after.pm.selected_index == m.pm.selected_index
            &&& after.rows.to_multiset() == m.rows.to_multiset()
            &&& after.rows.len() == m.rows.len()
        }),
{
    let clean = m.with_pm(PeerScreenView { status_message: None, ..m.pm });
    let acted = peer_acted(clean, PeerManagementAction::SortBySelectedColumn);
    let f = |row: PeerFacts| on_view(m, row);
    let g = |row: PeerFacts| on_view(acted, row);
    assert(f =~= g);
    assert(all_facts(m, now) =~= all_facts(acted, now));
    stably_sorted_keeps_items(kept(all_facts(m, now), f), table_order(m));
    stably_sorted_keeps_items(kept(all_facts(m, now), f), table_order(acted));
}

/// Sorting a second time keeps the column and turns the direction round.
pub proof fn sorting_again_turns_the_direction_round(m: PeerModel, then: u128, now: u128)
    ensures
        ({
            let once = peer_reduced(m, PeerManagementAction::SortBySelectedColumn, then);
            let twice = peer_reduced(once, PeerManagementAction::SortBySelectedColumn, now);
            &&& once.pm.sort_column_index == Some(once.pm.selected_column_index as usize)
            &&& twice.pm.sort_column_index == once.pm.sort_column_index
            &&& twice.pm.selected_column_index == once.pm.selected_column_index
            &&& twice.pm.sort_direction == other_direction(once.pm.sort_direction)
        }),
{
    let width = peer_table_width(m);
    let visible = peer_columns_at_width(width);
    state_address_and_evidence_are_always_visible(width);
    peer_columns_on_view_exist(width);
    nearest_visible_is_visible(m.pm.selected_column_index, visible, 0);
    let once = peer_reduced(m, PeerManagementAction::SortBySelectedColumn, then);
    assert(peer_table_width(once) == width);
    assert(once.pm.selected_column_index == selected_peer_column(m));
    assert(selected_peer_column(once) == selected_peer_column(m));
}

// ---------------------------------------------------------------- the details

proof fn the_depth_depends_on_what_is_shown(a: PeerModel, b: PeerModel)
    requires
        b == a.with_pm(
            PeerScreenView {
                details_scroll_offset: b.pm.details_scroll_offset,
                status_message: b.pm.status_message,
                selected_column_index: b.pm.selected_column_index,
                sort_column_index: b.pm.sort_column_index,
                ..a.pm
            },
        ),
    ensures
        details_max_scroll(b) == details_max_scroll(a),
{
    if let Some(k) = pinned_row(a.rows, a.pm.details_peer_ip) {
        let row = a.rows[k];
        assert(matching_records(a, row) == matching_records(b, row)) by {
            let f = |i: usize|
                peer_query_matches(
                    shown_torrent(
                        a.peers[i as int].shown_name@,
                        a.peers[i as int].masked_name@,
                        a.privacy,
                    ),
                    a.pm.details_search_query,
                    a.pm.details_search_mode,
                );
            let g = |i: usize|
                peer_query_matches(
                    shown_torrent(
                        b.peers[i as int].shown_name@,
                        b.peers[i as int].masked_name@,
                        b.privacy,
                    ),
                    b.pm.details_search_query,
                    b.pm.details_search_mode,
                );
            assert(f =~= g);
        }
    }
}

/// Scrolling never goes beyond the last page of the details.
pub proof fn scrolling_stays_within_the_details(
    m: PeerModel,
    action: PeerManagementAction,
    now: u128,
)
    requires
        0 <= m.pm.details_scroll_offset,
        action is ScrollDetailsUp || action is ScrollDetailsDown || action is ScrollDetailsPageUp
            || action is ScrollDetailsPageDown,
    ensures
        ({
            let after = peer_reduced(m, action, now);
            &&& details_max_scroll(after) == details_max_scroll(m)
            &&& 0 <= after.pm.details_scroll_offset <= details_max_scroll(after)
        }),
{
    let clean = m.with_pm(PeerScreenView { status_message: None, ..m.pm });
    let acted = peer_acted(clean, action);
    let after = peer_reduced(m, action, now);
    the_depth_depends_on_what_is_shown(m, clean);
    assert(details_page(clean) >= 1);
    assert(details_max_scroll(clean) >= 0);
    assert(acted == clean.with_pm(details_scrolled(clean.pm, acted.pm.details_scroll_offset)));
    the_depth_depends_on_what_is_shown(clean, acted);
    the_depth_depends_on_what_is_shown(acted, after);
}

/// Leaving the screen drops both searches and the details.
pub proof fn leaving_drops_the_searches(m: PeerModel, now: u128)
    ensures
        ({
            let after = peer_reduced(m, PeerManagementAction::ToNormal, now).pm;
            &&& !after.is_searching && after.search_query.len() == 0
            &&& !after.show_details && after.details_peer_ip is None
            &&& !after.details_is_searching && after.details_search_query.len() == 0
        }),
{
}

/// Hiding names drops the search, which was for what can no longer be read, and
/// showing them again leaves it alone.
pub proof fn hiding_names_drops_the_search(m: PeerModel, now: u128)
    ensures
        ({
            let after = peer_reduced(m, PeerManagementAction::TogglePrivacy, now);
            &&& after.privacy == !m.privacy
            &&& after.privacy ==> after.pm.search_query.len() == 0 && !after.pm.is_searching
            &&& m.privacy ==> after.pm.search_query == m.pm.search_query && after.pm.is_searching
                == m.pm.is_searching
        }),
{
}

// --------------------------------------------------------------- restrictions

proof fn first_expiry_is_first(restrictions: Seq<RestrictedPeer>, now: u128)
    ensures
        match first_expiry(restrictions, now) {
            Some(end) => {
                &&& end > now
                &&& exists|k: int|
                    0 <= k < restrictions.len() && (
                    #[trigger] restrictions[k]).restriction.blocked_until == end
                &&& forall|k: int|
                    0 <= k < restrictions.len() && (
                    #[trigger] restrictions[k]).restriction.blocked_until > now ==> end
                        <= restrictions[k].restriction.blocked_until
            },
            None => forall|k: int|
                0 <= k < restrictions.len() ==> (
                #[trigger] restrictions[k]).restriction.blocked_until <= now,
        },
    decreases restrictions.len(),
{
    if restrictions.len() > 0 {
        let head = restrictions.drop_last();
        first_expiry_is_first(head, now);
        assert forall|k: int| 0 <= k < head.len() implies head[k] == #[trigger] restrictions[k] by {}
        if let Some(end) = first_expiry(head, now) {
            let k = choose|k: int|
                0 <= k < head.len() && (#[trigger] head[k]).restriction.blocked_until == end;
            assert(restrictions[k].restriction.blocked_until == end);
        }
        assert(restrictions[restrictions.len() - 1].restriction.blocked_until
            == restrictions.last().restriction.blocked_until);
    }
}

/// Once the rows were worked out, nothing changes before the first restriction
/// ends: the rows are worked out again no sooner than that, and from then on.
pub proof fn rows_are_refreshed_when_a_restriction_ends(m: PeerModel, then: u128, now: u128)
    requires
        then <= now,
    ensures
        ({
            let before = recomputed(m, then);
            let after = refreshed(before, now);
            if exists|k: int|
                0 <= k < m.restrictions.len() && then < (
                #[trigger] m.restrictions[k]).restriction.blocked_until <= now {
                after == recomputed(before, now)
            } else {
                after == before
            }
        }),
{
    first_expiry_is_first(m.restrictions, then);
}

} // verus!
