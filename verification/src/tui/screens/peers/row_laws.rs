//! What the rows of the peer table tell of the peers that they stand for.
use crate::app::PeerManagementFilter;
use crate::lists::{contains_push, distinct, kept, kept_contains, kept_no_duplicates};
use crate::order::{
    placed, positions, stably_sorted, stably_sorted_keeps_items, Comparison,
    SortDirection,
};
use crate::peer_manager::{
    normalized_ip, IpAddr, PeerManagerTrackedPeer, PeerRestrictionReason, RestrictedPeer,
    RestrictionView,
};
use crate::text::{
    text_before, text_before_irreflexive, text_before_total, text_before_transitive, trimmed,
};
use crate::tui::screens::peers::columns::{peer_sorted_by, PeerColumnId};
use crate::tui::screens::peers::evidence::{
    all_evidence, all_measures, by_ratio, by_weight, measures, policy_evidence, strongest,
    strongest_is_not_outweighed, EvidenceKind, PeerEvidence,
};
use crate::tui::screens::peers::laws::{
    is_known, rows_are_in_order, rows_are_the_addresses_on_view,
};
use crate::tui::screens::peers::rows::{
    facts_at, peer_totals, record_hashes, restriction_at, tracked_at,
    tracked_comparison, PeerFacts,
};
use crate::tui::screens::peers::table::{peer_comparison, peer_rows, table_order, PeerModel};
use vstd::prelude::*;

verus! {

// ------------------------------------------------------------- the addresses

/// An address of the old kind that is written as one of the new kind counts as that of
/// the old kind, and every other address as itself.
pub proof fn mapped_addresses_are_the_old_ones(n: u32, wide: u128)
    ensures
        normalized_ip(IpAddr::V4(n)) == IpAddr::V4(n),
        normalized_ip(IpAddr::V6((0xffff_0000_0000 + n) as u128)) == IpAddr::V4(n),
        wide < 0xffff_0000_0000 || wide > 0xffff_ffff_ffff ==> normalized_ip(IpAddr::V6(wide))
            == IpAddr::V6(wide),
{
}

/// Whether the record at a place is of the address of a row.
pub open spec fn is_record(m: PeerModel, row: PeerFacts, k: int) -> bool {
    0 <= k < m.peers.len() && normalized_ip(m.peers[k].ip) == row.ip
}

proof fn positions_are_apart(n: nat)
    requires
        n <= usize::MAX,
    ensures
        positions(n).no_duplicates(),
        forall|i: usize| #[trigger] positions(n).contains(i) <==> i < n,
{
    let all = positions(n);
    assert forall|i: int, j: int| 0 <= i < all.len() && 0 <= j < all.len() && i != j implies all[i]
        != all[j] by {
        assert(all[i] == i as usize && all[j] == j as usize);
    }
    assert forall|i: usize| #[trigger] all.contains(i) <==> i < n by {
        if i < n {
            assert(all[i as int] == i);
        }
    }
}

proof fn records_of_an_address(peers: Seq<PeerManagerTrackedPeer>, ip: IpAddr)
    requires
        peers.len() <= usize::MAX,
    ensures
        tracked_at(peers, ip).no_duplicates(),
        forall|i: usize| #[trigger]
            tracked_at(peers, ip).contains(i) <==> i < peers.len() && normalized_ip(
                peers[i as int].ip,
            ) == ip,
{
    broadcast use vstd::seq_lib::group_to_multiset_ensures;

    let test = |i: usize| normalized_ip(peers[i as int].ip) == ip;
    let before = |a: usize, b: usize|
        tracked_comparison(peers, a as int, b as int) == Comparison::Less;
    let all = positions(peers.len());
    let chosen = kept(all, test);
    let out = tracked_at(peers, ip);
    positions_are_apart(peers.len());
    kept_no_duplicates(all, test);
    kept_contains(all, test);
    stably_sorted_keeps_items(chosen, before);
    chosen.lemma_multiset_has_no_duplicates();
    assert(out.to_multiset() == chosen.to_multiset());
    out.lemma_multiset_has_no_duplicates_conv();
    assert forall|i: usize| #[trigger] out.contains(i) <==> i < peers.len() && normalized_ip(
        peers[i as int].ip,
    ) == ip by {
        assert(out.contains(i) <==> out.to_multiset().count(i) > 0);
        assert(chosen.contains(i) <==> chosen.to_multiset().count(i) > 0);
        assert(all.contains(i) <==> i < peers.len());
    }
}

proof fn row_facts_of(m: PeerModel, now: u128, i: int)
    requires
        0 <= i < peer_rows(m, now).len(),
    ensures
        peer_rows(m, now)[i] == facts_at(m.peers, m.restrictions, peer_rows(m, now)[i].ip, now),
{
    rows_are_the_addresses_on_view(m, now);
    assert(peer_rows(m, now).contains(peer_rows(m, now)[i]));
}

/// A row has every record of its address, each once, and none of another address.
pub proof fn rows_have_the_records_of_their_address(m: PeerModel, now: u128, i: int)
    requires
        m.peers.len() <= usize::MAX,
        0 <= i < peer_rows(m, now).len(),
    ensures
        ({
            let row = peer_rows(m, now)[i];
            &&& row.records.no_duplicates()
            &&& forall|k: usize| #[trigger]
                row.records.contains(k) <==> is_record(m, row, k as int)
        }),
{
    row_facts_of(m, now, i);
    let row = peer_rows(m, now)[i];
    records_of_an_address(m.peers, row.ip);
}

// -------------------------------------------------------- activity and last sign

proof fn totals_tell_of_all(peers: Seq<PeerManagerTrackedPeer>, indices: Seq<usize>)
    ensures
        ({
            let sum = peer_totals(peers, indices);
            &&& sum.is_active <==> exists|k: int|
                0 <= k < indices.len() && (#[trigger] peers[indices[k] as int]).is_active
            &&& sum.last_seen matches Some(seen) ==> exists|k: int|
                0 <= k < indices.len() && (#[trigger] peers[indices[k] as int]).last_seen == Some(
                    seen,
                )
            &&& forall|k: int|
                0 <= k < indices.len() ==> ((#[trigger] peers[indices[k] as int]).last_seen matches Some(
                    seen,
                ) ==> sum.last_seen is Some && seen <= sum.last_seen->0)
        }),
    decreases indices.len(),
{
    if indices.len() > 0 {
        let head = indices.drop_last();
        totals_tell_of_all(peers, head);
        let sum = peer_totals(peers, indices);
        let before = peer_totals(peers, head);
        let last = indices.len() - 1;
        assert forall|k: int| 0 <= k < head.len() implies head[k] == indices[k] by {}
        if before.is_active {
            let k = choose|k: int| 0 <= k < head.len() && peers[head[k] as int].is_active;
            assert(peers[indices[k] as int].is_active);
        }
        if peers[indices[last] as int].is_active {
            assert(peers[indices[last] as int].is_active);
        }
        if sum.is_active && !before.is_active {
            assert(peers[indices[last] as int].is_active);
        }
        if exists|k: int| 0 <= k < indices.len() && (#[trigger] peers[indices[k] as int]).is_active {
            let k = choose|k: int|
                0 <= k < indices.len() && (#[trigger] peers[indices[k] as int]).is_active;
            if k < last {
                assert(peers[head[k] as int].is_active);
            }
        }
        if let Some(seen) = sum.last_seen {
            if peers[indices[last] as int].last_seen == Some(seen) {
                assert(peers[indices[last] as int].last_seen == Some(seen));
            } else {
                assert(before.last_seen == Some(seen));
                let k = choose|k: int|
                    0 <= k < head.len() && (#[trigger] peers[head[k] as int]).last_seen == Some(
                        seen,
                    );
                assert(peers[indices[k] as int].last_seen == Some(seen));
            }
        }
        assert forall|k: int| 0 <= k < indices.len() implies ((#[trigger] peers[indices[k] as int]).last_seen matches Some(
            seen,
        ) ==> sum.last_seen is Some && seen <= sum.last_seen->0) by {
            if k < last {
                assert(peers[head[k] as int].last_seen matches Some(seen) ==> before.last_seen
                    is Some && seen <= before.last_seen->0);
            }
        }
    }
}

/// A row was last seen when one of its records was and none was later; it was never
/// seen only if none of its records was. It is active if and only if one of its records
/// is.
pub proof fn rows_show_the_last_sign_of_their_records(m: PeerModel, now: u128, i: int)
    requires
        m.peers.len() <= usize::MAX,
        0 <= i < peer_rows(m, now).len(),
    ensures
        ({
            let row = peer_rows(m, now)[i];
            &&& row.last_seen matches Some(seen) ==> exists|k: int| #[trigger]
                is_record(m, row, k) && m.peers[k].last_seen == Some(seen)
            &&& forall|k: int| #[trigger]
                is_record(m, row, k) ==> (m.peers[k].last_seen matches Some(seen) ==> row.last_seen
                    is Some && seen <= row.last_seen->0)
            &&& row.is_active <==> exists|k: int| #[trigger]
                is_record(m, row, k) && m.peers[k].is_active
        }),
{
    row_facts_of(m, now, i);
    let row = peer_rows(m, now)[i];
    let records = tracked_at(m.peers, row.ip);
    records_of_an_address(m.peers, row.ip);
    totals_tell_of_all(m.peers, records);
    if let Some(seen) = row.last_seen {
        let k = choose|k: int|
            0 <= k < records.len() && (#[trigger] m.peers[records[k] as int]).last_seen == Some(
                seen,
            );
        assert(records.contains(records[k]));
        assert(is_record(m, row, records[k] as int));
    }
    assert forall|k: int| #[trigger] is_record(m, row, k) implies (m.peers[k].last_seen matches Some(
        seen,
    ) ==> row.last_seen is Some && seen <= row.last_seen->0) by {
        assert(records.contains(k as usize));
        let j = choose|j: int| 0 <= j < records.len() && records[j] == k as usize;
        assert(m.peers[records[j] as int] == m.peers[k]);
    }
    if row.is_active {
        let k = choose|k: int|
            0 <= k < records.len() && (#[trigger] m.peers[records[k] as int]).is_active;
        assert(records.contains(records[k]));
        assert(is_record(m, row, records[k] as int));
    }
    if exists|k: int| #[trigger] is_record(m, row, k) && m.peers[k].is_active {
        let k = choose|k: int| #[trigger] is_record(m, row, k) && m.peers[k].is_active;
        assert(records.contains(k as usize));
        let j = choose|j: int| 0 <= j < records.len() && records[j] == k as usize;
        assert(m.peers[records[j] as int].is_active);
    }
}

// ---------------------------------------------------------------- the totals

/// A quantity of the peers of an address, added up.
pub open spec fn total(
    peers: Seq<PeerManagerTrackedPeer>,
    ip: IpAddr,
    quantity: spec_fn(PeerManagerTrackedPeer) -> int,
) -> int
    decreases peers.len(),
{
    if peers.len() == 0 {
        0
    } else {
        total(peers.drop_last(), ip, quantity) + if normalized_ip(peers.last().ip) == ip {
            quantity(peers.last())
        } else {
            0
        }
    }
}

spec fn sum_over(indices: Seq<usize>, f: spec_fn(usize) -> int) -> int
    decreases indices.len(),
{
    if indices.len() == 0 {
        0
    } else {
        sum_over(indices.drop_last(), f) + f(indices.last())
    }
}

proof fn sum_of_placed(
    sorted: Seq<usize>,
    item: usize,
    before: spec_fn(usize, usize) -> bool,
    f: spec_fn(usize) -> int,
)
    ensures
        sum_over(placed(sorted, item, before), f) == sum_over(sorted, f) + f(item),
    decreases sorted.len(),
{
    if sorted.len() == 0 || !before(item, sorted.last()) {
        assert(sorted.push(item).drop_last() =~= sorted);
    } else {
        let head = sorted.drop_last();
        sum_of_placed(head, item, before, f);
        assert(placed(head, item, before).push(sorted.last()).drop_last() =~= placed(
            head,
            item,
            before,
        ));
    }
}

proof fn sum_of_sorted(
    items: Seq<usize>,
    before: spec_fn(usize, usize) -> bool,
    f: spec_fn(usize) -> int,
)
    ensures
        sum_over(stably_sorted(items, before), f) == sum_over(items, f),
    decreases items.len(),
{
    if items.len() > 0 {
        sum_of_sorted(items.drop_last(), before, f);
        sum_of_placed(stably_sorted(items.drop_last(), before), items.last(), before, f);
    }
}

proof fn sum_of_kept(
    peers: Seq<PeerManagerTrackedPeer>,
    ip: IpAddr,
    quantity: spec_fn(PeerManagerTrackedPeer) -> int,
    n: nat,
)
    requires
        n <= peers.len() <= usize::MAX,
    ensures
        sum_over(
            kept(positions(n), |i: usize| normalized_ip(peers[i as int].ip) == ip),
            |i: usize| quantity(peers[i as int]),
        ) == total(peers.take(n as int), ip, quantity),
    decreases n,
{
    let test = |i: usize| normalized_ip(peers[i as int].ip) == ip;
    let f = |i: usize| quantity(peers[i as int]);
    if n > 0 {
        let m = (n - 1) as nat;
        sum_of_kept(peers, ip, quantity, m);
        assert(positions(n).drop_last() =~= positions(m));
        assert(positions(n).last() == m as usize);
        assert(peers.take(n as int).drop_last() =~= peers.take(m as int));
        assert(peers.take(n as int).last() == peers[m as int]);
        let head = kept(positions(m), test);
        if test(m as usize) {
            assert(head.push(m as usize).drop_last() =~= head);
        }
    }
}

proof fn records_add_up(
    peers: Seq<PeerManagerTrackedPeer>,
    ip: IpAddr,
    quantity: spec_fn(PeerManagerTrackedPeer) -> int,
)
    requires
        peers.len() <= usize::MAX,
    ensures
        sum_over(tracked_at(peers, ip), |i: usize| quantity(peers[i as int])) == total(
            peers,
            ip,
            quantity,
        ),
{
    let test = |i: usize| normalized_ip(peers[i as int].ip) == ip;
    let before = |a: usize, b: usize|
        tracked_comparison(peers, a as int, b as int) == Comparison::Less;
    sum_of_sorted(
        kept(positions(peers.len()), test),
        before,
        |i: usize| quantity(peers[i as int]),
    );
    sum_of_kept(peers, ip, quantity, peers.len());
    assert(peers.take(peers.len() as int) =~= peers);
}

/// A number, as far as a counter goes.
pub open spec fn at_most_the_largest(n: int) -> int {
    if n <= 0xffff_ffff_ffff_ffff {
        n
    } else {
        0xffff_ffff_ffff_ffff
    }
}

proof fn totals_are_sums(peers: Seq<PeerManagerTrackedPeer>, indices: Seq<usize>)
    ensures
        ({
            let sum = peer_totals(peers, indices);
            let connections = sum_over(
                indices,
                |i: usize| peers[i as int].connection_count as int,
            );
            let disconnects = sum_over(
                indices,
                |i: usize| peers[i as int].disconnect_count as int,
            );
            let downloaded = sum_over(
                indices,
                |i: usize| peers[i as int].total_downloaded_bytes as int,
            );
            let uploaded = sum_over(
                indices,
                |i: usize| peers[i as int].total_uploaded_bytes as int,
            );
            &&& 0 <= connections && sum.connections == at_most_the_largest(connections)
            &&& 0 <= disconnects && sum.disconnects == at_most_the_largest(disconnects)
            &&& 0 <= downloaded && sum.downloaded == at_most_the_largest(downloaded)
            &&& 0 <= uploaded && sum.uploaded == at_most_the_largest(uploaded)
        }),
    decreases indices.len(),
{
    if indices.len() > 0 {
        totals_are_sums(peers, indices.drop_last());
    }
}

/// What a row shows of connections and of bytes is added up over all records of its
/// address, as far as a counter goes.
pub proof fn rows_add_their_records_up(m: PeerModel, now: u128, i: int)
    requires
        m.peers.len() <= usize::MAX,
        0 <= i < peer_rows(m, now).len(),
    ensures
        ({
            let row = peer_rows(m, now)[i];
            &&& row.connections == at_most_the_largest(
                total(m.peers, row.ip, |peer: PeerManagerTrackedPeer| peer.connection_count as int),
            )
            &&& row.disconnects == at_most_the_largest(
                total(m.peers, row.ip, |peer: PeerManagerTrackedPeer| peer.disconnect_count as int),
            )
            &&& row.downloaded == at_most_the_largest(
                total(
                    m.peers,
                    row.ip,
                    |peer: PeerManagerTrackedPeer| peer.total_downloaded_bytes as int,
                ),
            )
            &&& row.uploaded == at_most_the_largest(
                total(
                    m.peers,
                    row.ip,
                    |peer: PeerManagerTrackedPeer| peer.total_uploaded_bytes as int,
                ),
            )
        }),
{
    row_facts_of(m, now, i);
    let row = peer_rows(m, now)[i];
    let peers = m.peers;
    let connections = |peer: PeerManagerTrackedPeer| peer.connection_count as int;
    let disconnects = |peer: PeerManagerTrackedPeer| peer.disconnect_count as int;
    let downloaded = |peer: PeerManagerTrackedPeer| peer.total_downloaded_bytes as int;
    let uploaded = |peer: PeerManagerTrackedPeer| peer.total_uploaded_bytes as int;
    totals_are_sums(peers, tracked_at(peers, row.ip));
    records_add_up(peers, row.ip, connections);
    records_add_up(peers, row.ip, disconnects);
    records_add_up(peers, row.ip, downloaded);
    records_add_up(peers, row.ip, uploaded);
    assert((|i: usize| connections(peers[i as int])) =~= (|i: usize|
        peers[i as int].connection_count as int));
    assert((|i: usize| disconnects(peers[i as int])) =~= (|i: usize|
        peers[i as int].disconnect_count as int));
    assert((|i: usize| downloaded(peers[i as int])) =~= (|i: usize|
        peers[i as int].total_downloaded_bytes as int));
    assert((|i: usize| uploaded(peers[i as int])) =~= (|i: usize|
        peers[i as int].total_uploaded_bytes as int));
}

// ----------------------------------------------------------- the restriction

/// Whether the restriction at a place holds for an address at a moment.
pub open spec fn holds(m: PeerModel, ip: IpAddr, now: u128, k: int) -> bool {
    &&& 0 <= k < m.restrictions.len()
    &&& normalized_ip(m.restrictions[k].ip) == ip
    &&& now < m.restrictions[k].restriction.blocked_until
}

proof fn restriction_lasts_longest(restrictions: Seq<RestrictedPeer>, ip: IpAddr, now: u128)
    ensures
        ({
            let chosen = restriction_at(restrictions, ip, now);
            &&& chosen matches Some(r) ==> exists|k: int|
                0 <= k < restrictions.len() && (#[trigger] restrictions[k]).restriction@ == r
                    && normalized_ip(restrictions[k].ip) == ip && now
                    < restrictions[k].restriction.blocked_until
            &&& forall|k: int|
                0 <= k < restrictions.len() && normalized_ip((#[trigger] restrictions[k]).ip) == ip
                    && now < restrictions[k].restriction.blocked_until ==> chosen is Some
                    && restrictions[k].restriction.blocked_until <= chosen->0.blocked_until
        }),
    decreases restrictions.len(),
{
    if restrictions.len() > 0 {
        let head = restrictions.drop_last();
        let last = restrictions.len() - 1;
        restriction_lasts_longest(head, ip, now);
        let before = restriction_at(head, ip, now);
        let chosen = restriction_at(restrictions, ip, now);
        if let Some(r) = chosen {
            if chosen == before {
                let k = choose|k: int|
                    0 <= k < head.len() && (#[trigger] head[k]).restriction@ == r && normalized_ip(
                        head[k].ip,
                    ) == ip && now < head[k].restriction.blocked_until;
                assert(restrictions[k] == head[k]);
            } else {
                assert(restrictions[last].restriction@ == r);
            }
        }
        assert forall|k: int|
            0 <= k < restrictions.len() && normalized_ip((#[trigger] restrictions[k]).ip) == ip
                && now < restrictions[k].restriction.blocked_until implies chosen is Some
            && restrictions[k].restriction.blocked_until <= chosen->0.blocked_until by {
            if k < last {
                assert(head[k] == restrictions[k]);
            }
        }
    }
}

/// A row shows a restriction if and only if one holds for its address, and then the one
/// that lasts longest.
pub proof fn rows_show_the_restriction_that_lasts_longest(m: PeerModel, now: u128, i: int)
    requires
        0 <= i < peer_rows(m, now).len(),
    ensures
        ({
            let row = peer_rows(m, now)[i];
            &&& row.restriction matches Some(r) ==> exists|k: int| #[trigger]
                holds(m, row.ip, now, k) && m.restrictions[k].restriction@ == r
            &&& forall|k: int| #[trigger]
                holds(m, row.ip, now, k) ==> row.restriction is Some
                    && m.restrictions[k].restriction.blocked_until
                    <= row.restriction->0.blocked_until
        }),
{
    row_facts_of(m, now, i);
    let row = peer_rows(m, now)[i];
    restriction_lasts_longest(m.restrictions, row.ip, now);
    if let Some(r) = row.restriction {
        let k = choose|k: int|
            0 <= k < m.restrictions.len() && (#[trigger] m.restrictions[k]).restriction@ == r
                && normalized_ip(m.restrictions[k].ip) == row.ip && now
                < m.restrictions[k].restriction.blocked_until;
        assert(holds(m, row.ip, now, k));
    }
}

/// An address has a row among all if and only if a record is of it or a restriction
/// holds for it.
pub proof fn every_address_has_its_row(m: PeerModel, now: u128, ip: IpAddr)
    requires
        m.pm.filter == PeerManagementFilter::All,
        trimmed(m.pm.search_query).len() == 0,
    ensures
        (exists|i: int| 0 <= i < peer_rows(m, now).len() && (#[trigger] peer_rows(m, now)[i]).ip
            == ip) <==> (exists|k: int|
            0 <= k < m.peers.len() && normalized_ip((#[trigger] m.peers[k]).ip) == ip) || (exists|
            k: int,
        | #[trigger] holds(m, ip, now, k)),
{
    rows_are_the_addresses_on_view(m, now);
    let rows = peer_rows(m, now);
    let row = facts_at(m.peers, m.restrictions, ip, now);
    assert(row.ip == ip);
    if exists|k: int| 0 <= k < m.peers.len() && normalized_ip((#[trigger] m.peers[k]).ip) == ip {
        assert(is_known(m.peers, m.restrictions, now, ip));
        assert(rows.contains(row));
        let i = choose|i: int| 0 <= i < rows.len() && rows[i] == row;
        assert(rows[i].ip == ip);
    }
    if exists|k: int| #[trigger] holds(m, ip, now, k) {
        let k = choose|k: int| #[trigger] holds(m, ip, now, k);
        assert(m.restrictions[k].restriction.blocked_until > now);
        assert(is_known(m.peers, m.restrictions, now, ip));
        assert(rows.contains(row));
        let i = choose|i: int| 0 <= i < rows.len() && rows[i] == row;
        assert(rows[i].ip == ip);
    }
    if exists|i: int| 0 <= i < rows.len() && (#[trigger] rows[i]).ip == ip {
        let i = choose|i: int| 0 <= i < rows.len() && (#[trigger] rows[i]).ip == ip;
        assert(rows.contains(rows[i]));
        assert(is_known(m.peers, m.restrictions, now, ip));
        if !(exists|k: int| 0 <= k < m.peers.len() && normalized_ip((#[trigger] m.peers[k]).ip)
            == ip) {
            let k = choose|k: int|
                0 <= k < m.restrictions.len() && normalized_ip(
                    (#[trigger] m.restrictions[k]).ip,
                ) == ip && m.restrictions[k].restriction.blocked_until > now;
            assert(holds(m, ip, now, k));
        }
    }
}

// --------------------------------------------------------------- the torrents

pub(crate) proof fn distinct_hashes(list: Seq<Seq<u8>>)
    ensures
        distinct(list).no_duplicates(),
        forall|h: Seq<u8>| #[trigger] distinct(list).contains(h) <==> list.contains(h),
    decreases list.len(),
{
    if list.len() > 0 {
        let head = list.drop_last();
        distinct_hashes(head);
        assert(list =~= head.push(list.last()));
        assert forall|h: Seq<u8>| #[trigger] distinct(list).contains(h) <==> list.contains(h) by {
            contains_push(head, list.last(), h);
            contains_push(distinct(head), list.last(), h);
        }
    }
}

/// The torrents that a row is known from: those of its records, and that of its
/// restriction.
pub open spec fn torrents_of_row(m: PeerModel, row: PeerFacts) -> Set<Seq<u8>> {
    Set::new(
        |hash: Seq<u8>|
            (exists|k: int| #[trigger]
                is_record(m, row, k) && m.peers[k].torrent_info_hash@ == hash) || (
            row.restriction matches Some(r) && r.torrent_info_hash == Some(hash)),
    )
}

/// A row counts every torrent that it is known from once.
pub proof fn rows_count_their_torrents(m: PeerModel, now: u128, i: int)
    requires
        m.peers.len() <= usize::MAX,
        0 <= i < peer_rows(m, now).len(),
    ensures
        ({
            let row = peer_rows(m, now)[i];
            &&& torrents_of_row(m, row).finite()
            &&& row.torrent_count == torrents_of_row(m, row).len()
        }),
{
    row_facts_of(m, now, i);
    let row = peer_rows(m, now)[i];
    let records = tracked_at(m.peers, row.ip);
    records_of_an_address(m.peers, row.ip);
    let hashes = record_hashes(m.peers, records);
    let all = match row.restriction {
        Some(restriction) => match restriction.torrent_info_hash {
            Some(hash) => hashes.push(hash),
            None => hashes,
        },
        None => hashes,
    };
    distinct_hashes(all);
    distinct(all).unique_seq_to_set();
    assert forall|h: Seq<u8>| #[trigger] hashes.contains(h) <==> exists|k: int| #[trigger]
        is_record(m, row, k) && m.peers[k].torrent_info_hash@ == h by {
        if hashes.contains(h) {
            let j = choose|j: int| 0 <= j < hashes.len() && hashes[j] == h;
            assert(records.contains(records[j]));
            assert(is_record(m, row, records[j] as int));
        }
        if exists|k: int| #[trigger]
            is_record(m, row, k) && m.peers[k].torrent_info_hash@ == h {
            let k = choose|k: int| #[trigger]
                is_record(m, row, k) && m.peers[k].torrent_info_hash@ == h;
            assert(records.contains(k as usize));
            let j = choose|j: int| 0 <= j < records.len() && records[j] == k as usize;
            assert(hashes[j] == h);
        }
    }
    assert forall|h: Seq<u8>| torrents_of_row(m, row).contains(h) <==> distinct(
        all,
    ).to_set().contains(h) by {
        assert(distinct(all).contains(h) <==> all.contains(h));
        if let Some(r) = row.restriction {
            if let Some(hash) = r.torrent_info_hash {
                contains_push(hashes, hash, h);
            }
        }
        assert(hashes.contains(h) <==> exists|k: int| #[trigger]
            is_record(m, row, k) && m.peers[k].torrent_info_hash@ == h);
    }
    assert(torrents_of_row(m, row) =~= distinct(all).to_set());
}

// --------------------------------------------------------------- the evidence

/// Whether so much of what is tolerated is no larger a share than a piece of evidence
/// shows; where nothing is tolerated there is no share.
pub open spec fn is_no_more_than(observed: int, threshold: int, evidence: PeerEvidence) -> bool {
    ||| threshold == 0
    ||| if evidence.threshold == 0 {
        observed == 0
    } else {
        observed * evidence.threshold <= evidence.observed * threshold
    }
}

/// Whether a piece of evidence is one of the three measures of a record.
pub open spec fn is_measure_of(evidence: PeerEvidence, peer: PeerManagerTrackedPeer) -> bool {
    &&& !evidence.from_policy
    &&& match evidence.kind {
        EvidenceKind::Upload => evidence.observed == peer.uploaded_evidence_bytes
            && evidence.threshold == peer.transfer_threshold_bytes,
        EvidenceKind::Download => evidence.observed == peer.downloaded_evidence_bytes
            && evidence.threshold == peer.transfer_threshold_bytes,
        EvidenceKind::Reconnect => evidence.observed == peer.reconnect_count && evidence.threshold
            == peer.reconnect_limit,
        EvidenceKind::Manual => false,
    }
}

proof fn shares_compare(x: PeerEvidence, y: PeerEvidence)
    requires
        by_ratio(y, x) != Comparison::Less,
    ensures
        is_no_more_than(x.observed as int, x.threshold as int, y),
{
    let (xo, xt) = (x.observed as int, x.threshold as int);
    assert(0 * xt == 0) by (nonlinear_arith);
    assert(xo * 1 == xo) by (nonlinear_arith);
}

proof fn measures_are_of_records(peers: Seq<PeerManagerTrackedPeer>, indices: Seq<usize>)
    ensures
        forall|e: int|
            0 <= e < all_measures(peers, indices).len() ==> exists|k: int|
                0 <= k < indices.len() && is_measure_of(
                    #[trigger] all_measures(peers, indices)[e],
                    #[trigger] peers[indices[k] as int],
                ),
        forall|k: int, j: int|
            0 <= k < indices.len() && 0 <= j < 3 ==> exists|e: int|
                0 <= e < all_measures(peers, indices).len() && #[trigger] all_measures(
                    peers,
                    indices,
                )[e] == #[trigger] measures(peers[indices[k] as int])[j],
    decreases indices.len(),
{
    if indices.len() > 0 {
        let head = indices.drop_last();
        let last = indices.len() - 1;
        measures_are_of_records(peers, head);
        let before = all_measures(peers, head);
        let all = all_measures(peers, indices);
        assert forall|e: int| 0 <= e < all.len() implies exists|k: int|
            0 <= k < indices.len() && is_measure_of(
                #[trigger] all[e],
                #[trigger] peers[indices[k] as int],
            ) by {
            if e < before.len() {
                assert(all[e] == before[e]);
                let k = choose|k: int|
                    0 <= k < head.len() && is_measure_of(
                        before[e],
                        #[trigger] peers[head[k] as int],
                    );
                assert(is_measure_of(all[e], peers[indices[k] as int]));
            } else {
                assert(all[e] == measures(peers[indices[last] as int])[e - before.len()]);
                assert(is_measure_of(all[e], peers[indices[last] as int]));
            }
        }
        assert forall|k: int, j: int| 0 <= k < indices.len() && 0 <= j < 3 implies exists|e: int|
            0 <= e < all.len() && #[trigger] all[e] == #[trigger] measures(
                peers[indices[k] as int],
            )[j] by {
            if k < last {
                assert(head[k] == indices[k]);
                let e = choose|e: int|
                    0 <= e < before.len() && #[trigger] before[e] == measures(
                        peers[head[k] as int],
                    )[j];
                assert(all[e] == before[e]);
            } else {
                assert(all[before.len() + j] == measures(peers[indices[k] as int])[j]);
            }
        }
    }
}

proof fn strongest_is_one_of_them(list: Seq<PeerEvidence>)
    requires
        list.len() > 0,
    ensures
        list.contains(strongest(list)),
    decreases list.len(),
{
    if list.len() == 1 {
        assert(list[0] == strongest(list));
    } else {
        let head = list.drop_last();
        strongest_is_one_of_them(head);
        if strongest(list) == strongest(head) {
            let k = choose|k: int| 0 <= k < head.len() && head[k] == strongest(head);
            assert(list[k] == strongest(list));
        } else {
            assert(list[list.len() - 1] == strongest(list));
        }
    }
}

proof fn no_measure_outweighs(
    peers: Seq<PeerManagerTrackedPeer>,
    indices: Seq<usize>,
    restriction: Option<RestrictionView>,
    r: int,
)
    requires
        0 <= r < indices.len(),
    ensures
        ({
            let best = strongest(all_evidence(peers, indices, restriction));
            let peer = peers[indices[r] as int];
            &&& is_no_more_than(
                peer.uploaded_evidence_bytes as int,
                peer.transfer_threshold_bytes as int,
                best,
            )
            &&& is_no_more_than(
                peer.downloaded_evidence_bytes as int,
                peer.transfer_threshold_bytes as int,
                best,
            )
            &&& is_no_more_than(peer.reconnect_count as int, peer.reconnect_limit as int, best)
        }),
{
    let measured = all_measures(peers, indices);
    let all = all_evidence(peers, indices, restriction);
    let best = strongest(all);
    measures_are_of_records(peers, indices);
    let three = measures(peers[indices[r] as int]);
    assert forall|j: int| 0 <= j < 3 implies by_ratio(best, #[trigger] three[j])
        != Comparison::Less by {
        assert(three[j] == measures(peers[indices[r] as int])[j]);
        let e = choose|e: int| 0 <= e < measured.len() && #[trigger] measured[e] == three[j];
        assert(all[e] == measured[e]);
        strongest_is_not_outweighed(all, e);
        assert(by_weight(best, three[j]) != Comparison::Less);
    }
    shares_compare(three[0], best);
    shares_compare(three[1], best);
    shares_compare(three[2], best);
}

/// Whether a piece of evidence is what a restriction rests on.
pub open spec fn rests_on(reason: PeerRestrictionReason, evidence: PeerEvidence) -> bool {
    match reason {
        PeerRestrictionReason::ExcessiveUpload { uploaded_bytes, threshold_bytes } => evidence.kind
            == EvidenceKind::Upload && evidence.observed == uploaded_bytes && evidence.threshold
            == threshold_bytes,
        PeerRestrictionReason::ExcessiveDownload { downloaded_bytes, threshold_bytes } =>
        evidence.kind == EvidenceKind::Download && evidence.observed == downloaded_bytes
            && evidence.threshold == threshold_bytes,
        PeerRestrictionReason::ReconnectChurn { reconnects, threshold, window_secs } =>
        evidence.kind == EvidenceKind::Reconnect && evidence.observed == reconnects
            && evidence.threshold == threshold,
        PeerRestrictionReason::Manual => evidence.kind == EvidenceKind::Manual,
    }
}

proof fn evidence_comes_from_somewhere(
    peers: Seq<PeerManagerTrackedPeer>,
    indices: Seq<usize>,
    restriction: Option<RestrictionView>,
)
    ensures
        ({
            let best = strongest(all_evidence(peers, indices, restriction));
            &&& !best.from_policy ==> (exists|k: int|
                0 <= k < indices.len() && is_measure_of(best, #[trigger] peers[indices[k] as int]))
                || best.observed == 0
            &&& best.from_policy ==> restriction is Some && rests_on(restriction->0.reason, best)
        }),
{
    let measured = all_measures(peers, indices);
    let all = all_evidence(peers, indices, restriction);
    let best = strongest(all);
    measures_are_of_records(peers, indices);
    if all.len() > 0 {
        strongest_is_one_of_them(all);
        let e = choose|e: int| 0 <= e < all.len() && all[e] == best;
        if e < measured.len() {
            assert(all[e] == measured[e]);
            let k = choose|k: int|
                0 <= k < indices.len() && is_measure_of(
                    measured[e],
                    #[trigger] peers[indices[k] as int],
                );
            assert(is_measure_of(best, peers[indices[k] as int]));
        } else {
            assert(best == policy_evidence(restriction->0.reason));
        }
    }
}

/// The evidence that a row shows is a measure of one of its records, or what its
/// restriction rests on; and no measure of any of its records, upload, download or
/// reconnects, is a larger share of what is tolerated.
pub proof fn rows_show_the_strongest_evidence(m: PeerModel, now: u128, i: int)
    requires
        m.peers.len() <= usize::MAX,
        0 <= i < peer_rows(m, now).len(),
    ensures
        ({
            let row = peer_rows(m, now)[i];
            let best = row.evidence;
            &&& forall|k: int| #[trigger]
                is_record(m, row, k) ==> {
                    let peer = m.peers[k];
                    &&& is_no_more_than(
                        peer.uploaded_evidence_bytes as int,
                        peer.transfer_threshold_bytes as int,
                        best,
                    )
                    &&& is_no_more_than(
                        peer.downloaded_evidence_bytes as int,
                        peer.transfer_threshold_bytes as int,
                        best,
                    )
                    &&& is_no_more_than(
                        peer.reconnect_count as int,
                        peer.reconnect_limit as int,
                        best,
                    )
                }
            &&& !best.from_policy ==> (exists|k: int| #[trigger]
                is_record(m, row, k) && is_measure_of(best, m.peers[k])) || best.observed == 0
            &&& best.from_policy ==> row.restriction is Some && rests_on(
                row.restriction->0.reason,
                best,
            )
        }),
{
    row_facts_of(m, now, i);
    let row = peer_rows(m, now)[i];
    let records = tracked_at(m.peers, row.ip);
    records_of_an_address(m.peers, row.ip);
    let best = row.evidence;
    assert forall|k: int| #[trigger] is_record(m, row, k) implies {
        let peer = m.peers[k];
        &&& is_no_more_than(
            peer.uploaded_evidence_bytes as int,
            peer.transfer_threshold_bytes as int,
            best,
        )
        &&& is_no_more_than(
            peer.downloaded_evidence_bytes as int,
            peer.transfer_threshold_bytes as int,
            best,
        )
        &&& is_no_more_than(peer.reconnect_count as int, peer.reconnect_limit as int, best)
    } by {
        assert(records.contains(k as usize));
        let r = choose|r: int| 0 <= r < records.len() && records[r] == k as usize;
        no_measure_outweighs(m.peers, records, row.restriction, r);
    }
    evidence_comes_from_somewhere(m.peers, records, row.restriction);
    if !best.from_policy && best.observed != 0 {
        let k = choose|k: int|
            0 <= k < records.len() && is_measure_of(best, #[trigger] m.peers[records[k] as int]);
        assert(records.contains(records[k]));
        assert(is_record(m, row, records[k] as int));
    }
}

// ------------------------------------------------------------------- the order

/// The later of two signs counts as more; none counts as less than any.
pub open spec fn seen_no_later(a: Option<u128>, b: Option<u128>) -> bool {
    match (a, b) {
        (None, _) => true,
        (Some(_), None) => false,
        (Some(x), Some(y)) => x <= y,
    }
}

/// Whether one row shows no more in a column than another.
pub open spec fn shows_no_more(column: PeerColumnId, a: PeerFacts, b: PeerFacts) -> bool {
    match column {
        PeerColumnId::State => a.restriction is Some || (b.restriction is None && (a.is_active
            ==> b.is_active)),
        PeerColumnId::Address => match (a.ip, b.ip) {
            (IpAddr::V4(x), IpAddr::V4(y)) => x <= y,
            (IpAddr::V6(x), IpAddr::V6(y)) => x <= y,
            (IpAddr::V4(_), IpAddr::V6(_)) => true,
            (IpAddr::V6(_), IpAddr::V4(_)) => false,
        },
        PeerColumnId::Torrents => a.torrent_count <= b.torrent_count,
        PeerColumnId::Client => !text_before(b.client, a.client),
        PeerColumnId::Connects => a.connections <= b.connections,
        PeerColumnId::Disconnects => a.disconnects <= b.disconnects,
        PeerColumnId::Downloaded => a.downloaded <= b.downloaded,
        PeerColumnId::Uploaded => a.uploaded <= b.uploaded,
        PeerColumnId::Evidence => is_no_more_than(
            a.evidence.observed as int,
            a.evidence.threshold as int,
            b.evidence,
        ),
        PeerColumnId::LastSeen => seen_no_later(a.last_seen, b.last_seen),
    }
}

/// A table sorted by a column rises in it from top to bottom, or falls if the direction
/// is descending. In a sort by state blocked peers come first either way.
pub proof fn rows_follow_the_sorted_column(
    m: PeerModel,
    now: u128,
    i: int,
    j: int,
    column: PeerColumnId,
)
    requires
        0 <= i < j < peer_rows(m, now).len(),
        peer_sorted_by(m.pm.sort_column_index) == Some(column),
    ensures
        ({
            let a = peer_rows(m, now)[i];
            let b = peer_rows(m, now)[j];
            match (column, m.pm.sort_direction) {
                (PeerColumnId::State, SortDirection::Descending) => a.restriction is Some || (
                b.restriction is None && (b.is_active ==> a.is_active)),
                (_, SortDirection::Ascending) => shows_no_more(column, a, b),
                (_, SortDirection::Descending) => shows_no_more(column, b, a),
            }
        }),
{
    let rows = peer_rows(m, now);
    let a = rows[i];
    let b = rows[j];
    rows_are_in_order(m, now);
    assert(!table_order(m)(rows[j], rows[i]));
    assert(peer_comparison(Some(column), m.pm.sort_direction, b, a) != Comparison::Less);
    text_before_irreflexive(a.client);
    text_before_total(a.client, b.client);
    if text_before(a.client, b.client) && text_before(b.client, a.client) {
        text_before_transitive(a.client, b.client, a.client);
    }
    if column == PeerColumnId::Evidence {
        if m.pm.sort_direction == SortDirection::Ascending {
            assert(by_ratio(b.evidence, a.evidence) != Comparison::Less);
            shares_compare(a.evidence, b.evidence);
        } else {
            assert(by_ratio(b.evidence, a.evidence) != Comparison::Greater);
            ratios_turn_round(a.evidence, b.evidence);
            shares_compare(b.evidence, a.evidence);
        }
    }
}

proof fn ratios_turn_round(a: PeerEvidence, b: PeerEvidence)
    requires
        by_ratio(b, a) != Comparison::Greater,
    ensures
        by_ratio(a, b) != Comparison::Less,
{
}

} // verus!
