//! The rows of the peer table: one for each address, with what is known of it.
use crate::lists::{
    add_bytes, add_text, added, byte_strings, copy_bytes, distinct, distinct_texts, kept,
    kept_contains, sort_texts, sorted_texts, texts,
};
use crate::order::{
    break_tie, by_bytes, by_text, compare_bytes, compare_texts, or_by, order_of, positions,
    stable_sort, stably_sorted, stably_sorted_keeps_items, Comparison, Precedence,
};
use crate::peer_manager::{
    normalize_peer_ip, normalized_ip, IpAddr, PeerManagerTrackedPeer, PeerRestriction,
    RestrictedPeer, RestrictionView,
};
use crate::text::{
    begins_with, decimal, format_number, join_with, owned, same_text, separated, starts_with,
};
use crate::tui::screens::peers::columns::TORRENTS_COLUMN_WIDTH;
use crate::tui::screens::peers::evidence::{
    all_evidence, strongest, strongest_peer_evidence, PeerEvidence,
};
use crate::tui::screens::peers::labels::{blocked_label, blocked_text, fits, fits_column};
use crate::tui::screens::torrents::rows::capped;
use vstd::prelude::*;
use vstd::string::StringExecFns;

verus! {

// ------------------------------------------------------------------ the rows

/// What the table knows of one address.
#[derive(Clone, Debug, PartialEq, Eq)]
pub struct PeerRowModel {
    pub ip: IpAddr,
    pub tracked_indices: Vec<usize>,
    pub restriction: Option<PeerRestriction>,
    pub torrent_count: usize,
    pub is_active: bool,
    pub last_seen: Option<u128>,
    pub strongest_evidence: PeerEvidence,
    pub client_label: String,
    pub connection_count: u64,
    pub disconnect_count: u64,
    pub total_downloaded_bytes: u64,
    pub total_uploaded_bytes: u64,
}

#[verifier::ext_equal]
pub struct PeerFacts {
    pub ip: IpAddr,
    pub records: Seq<usize>,
    pub restriction: Option<RestrictionView>,
    pub torrent_count: int,
    pub is_active: bool,
    pub last_seen: Option<u128>,
    pub evidence: PeerEvidence,
    pub client: Seq<char>,
    pub connections: int,
    pub disconnects: int,
    pub downloaded: int,
    pub uploaded: int,
}

pub open spec fn restriction_view(restriction: Option<PeerRestriction>) -> Option<
    RestrictionView,
> {
    match restriction {
        Some(restriction) => Some(restriction@),
        None => None,
    }
}

impl View for PeerRowModel {
    type V = PeerFacts;

    open spec fn view(&self) -> PeerFacts {
        PeerFacts {
            ip: self.ip,
            records: self.tracked_indices@,
            restriction: restriction_view(self.restriction),
            torrent_count: self.torrent_count as int,
            is_active: self.is_active,
            last_seen: self.last_seen,
            evidence: self.strongest_evidence,
            client: self.client_label@,
            connections: self.connection_count as int,
            disconnects: self.disconnect_count as int,
            downloaded: self.total_downloaded_bytes as int,
            uploaded: self.total_uploaded_bytes as int,
        }
    }
}

pub open spec fn row_facts(rows: Seq<PeerRowModel>) -> Seq<PeerFacts> {
    rows.map_values(|row: PeerRowModel| row@)
}

pub open spec fn state_text(row: PeerFacts) -> Seq<char> {
    if row.restriction is Some {
        "BLOCKED"@
    } else if row.is_active {
        "ACTIVE"@
    } else {
        "RECENT"@
    }
}

impl PeerRowModel {
    pub fn is_active(&self) -> (active: bool)
        ensures
            active == self@.is_active,
    {
        self.is_active
    }

    pub fn is_restricted(&self) -> (restricted: bool)
        ensures
            restricted == (self@.restriction is Some),
    {
        self.restriction.is_some()
    }

    pub fn last_seen(&self) -> (moment: Option<u128>)
        ensures
            moment == self@.last_seen,
    {
        self.last_seen
    }

    pub fn strongest_evidence(&self) -> (evidence: PeerEvidence)
        ensures
            evidence == self@.evidence,
    {
        self.strongest_evidence
    }

    /// The state of the peer.
    pub fn state_label(&self) -> (label: &'static str)
        ensures
            label@ == state_text(self@),
    {
        if self.is_restricted() {
            "BLOCKED"
        } else if self.is_active() {
            "ACTIVE"
        } else {
            "RECENT"
        }
    }

    /// The state of the peer, with the time left while it is blocked.
    pub fn state_column_label(&self, now: u128) -> (label: String)
        ensures
            label@ == match self@.restriction {
                Some(restriction) => blocked_text(now as int, restriction.blocked_until as int),
                None => state_text(self@),
            },
    {
        match &self.restriction {
            Some(restriction) => blocked_label(now, restriction.blocked_until),
            None => owned(self.state_label()),
        }
    }

    /// Blocked peers come before active ones, and those before the others.
    pub fn state_sort_rank(&self) -> (rank: u8)
        ensures
            rank == state_rank(self@),
    {
        if self.is_restricted() {
            2
        } else if self.is_active() {
            1
        } else {
            0
        }
    }
}

pub open spec fn state_rank(row: PeerFacts) -> int {
    if row.restriction is Some {
        2
    } else if row.is_active {
        1
    } else {
        0
    }
}

/// The number of torrents in the table; more digits than its column holds are cut
/// to as many nines.
pub open spec fn torrents_text(count: int) -> Seq<char> {
    if fits(decimal(count as nat), TORRENTS_COLUMN_WIDTH as int) {
        decimal(count as nat)
    } else {
        "999999999+"@
    }
}

/// The number of torrents in the table.
pub fn peer_torrents_label(row: &PeerRowModel) -> (label: String)
    ensures
        label@ == torrents_text(row.torrent_count as int),
{
    let label = format_number(row.torrent_count as u64);
    if fits_column(label.as_str(), TORRENTS_COLUMN_WIDTH) {
        label
    } else {
        owned("999999999+")
    }
}

// -------------------------------------------------------------- the addresses

/// A list of addresses with one more, unless it is there.
pub open spec fn with_ip(list: Seq<IpAddr>, ip: IpAddr) -> Seq<IpAddr> {
    if list.contains(ip) {
        list
    } else {
        list.push(ip)
    }
}

/// The addresses of some peers, each once.
pub open spec fn tracked_ips(peers: Seq<PeerManagerTrackedPeer>) -> Seq<IpAddr>
    decreases peers.len(),
{
    if peers.len() == 0 {
        Seq::empty()
    } else {
        with_ip(tracked_ips(peers.drop_last()), normalized_ip(peers.last().ip))
    }
}

/// Some addresses, and those that are restricted at a moment.
pub open spec fn with_restricted(
    list: Seq<IpAddr>,
    restrictions: Seq<RestrictedPeer>,
    now: u128,
) -> Seq<IpAddr>
    decreases restrictions.len(),
{
    if restrictions.len() == 0 {
        list
    } else {
        let head = with_restricted(list, restrictions.drop_last(), now);
        if restrictions.last().restriction.blocked_until > now {
            with_ip(head, normalized_ip(restrictions.last().ip))
        } else {
            head
        }
    }
}

/// All addresses of which something is known at a moment.
pub open spec fn known_ips(
    peers: Seq<PeerManagerTrackedPeer>,
    restrictions: Seq<RestrictedPeer>,
    now: u128,
) -> Seq<IpAddr> {
    with_restricted(tracked_ips(peers), restrictions, now)
}

/// Whether a list holds an address.
pub fn holds_ip(list: &Vec<IpAddr>, ip: IpAddr) -> (held: bool)
    ensures
        held == list@.contains(ip),
{
    let mut i: usize = 0;
    while i < list.len()
        invariant
            i <= list@.len(),
            forall|k: int| 0 <= k < i ==> #[trigger] list@[k] != ip,
        decreases list@.len() - i,
    {
        if list[i] == ip {
            assert(list@[i as int] == ip);
            return true;
        }
        i = i + 1;
    }
    false
}

fn add_ip(list: &mut Vec<IpAddr>, ip: IpAddr)
    ensures
        final(list)@ == with_ip(old(list)@, ip),
{
    if !holds_ip(list, ip) {
        list.push(ip);
    }
}

pub(crate) fn addresses(peers: &Vec<PeerManagerTrackedPeer>, restrictions: &Vec<RestrictedPeer>, now: u128) -> (ips:
    Vec<IpAddr>)
    ensures
        ips@ == known_ips(peers@, restrictions@, now),
{
    let mut ips: Vec<IpAddr> = Vec::new();
    let mut i: usize = 0;
    assert(peers@.take(0) =~= Seq::<PeerManagerTrackedPeer>::empty());
    while i < peers.len()
        invariant
            i <= peers@.len(),
            ips@ == tracked_ips(peers@.take(i as int)),
        decreases peers@.len() - i,
    {
        assert(peers@.take(i + 1).drop_last() =~= peers@.take(i as int));
        add_ip(&mut ips, normalize_peer_ip(peers[i].ip));
        i = i + 1;
    }
    assert(peers@.take(i as int) =~= peers@);
    let ghost base = ips@;
    let mut j: usize = 0;
    assert(restrictions@.take(0) =~= Seq::<RestrictedPeer>::empty());
    while j < restrictions.len()
        invariant
            j <= restrictions@.len(),
            ips@ == with_restricted(base, restrictions@.take(j as int), now),
        decreases restrictions@.len() - j,
    {
        assert(restrictions@.take(j + 1).drop_last() =~= restrictions@.take(j as int));
        if restrictions[j].restriction.blocked_until > now {
            add_ip(&mut ips, normalize_peer_ip(restrictions[j].ip));
        }
        j = j + 1;
    }
    assert(restrictions@.take(j as int) =~= restrictions@);
    ips
}

// ------------------------------------------------------ what an address is known for

/// Which records are of an address, in the order of the torrents' names and then
/// of their hashes.
pub open spec fn tracked_at(peers: Seq<PeerManagerTrackedPeer>, ip: IpAddr) -> Seq<usize> {
    stably_sorted(
        kept(positions(peers.len()), |i: usize| normalized_ip(peers[i as int].ip) == ip),
        |a: usize, b: usize| tracked_comparison(peers, a as int, b as int) == Comparison::Less,
    )
}

pub open spec fn tracked_comparison(
    peers: Seq<PeerManagerTrackedPeer>,
    i: int,
    j: int,
) -> Comparison {
    or_by(
        by_text(peers[i].torrent_name@, peers[j].torrent_name@),
        by_bytes(peers[i].torrent_info_hash@, peers[j].torrent_info_hash@),
    )
}

pub struct TrackedOrder<'a> {
    pub peers: &'a Vec<PeerManagerTrackedPeer>,
}

impl<'a> Precedence<usize> for TrackedOrder<'a> {
    open spec fn precedes(&self, a: usize, b: usize) -> bool {
        tracked_comparison(self.peers@, a as int, b as int) == Comparison::Less
    }

    open spec fn knows(&self, a: usize) -> bool {
        a < self.peers@.len()
    }

    fn goes_before(&self, a: &usize, b: &usize) -> (before: bool) {
        let left = &self.peers[*a];
        let right = &self.peers[*b];
        break_tie(
            compare_texts(left.torrent_name.as_str(), right.torrent_name.as_str()),
            compare_bytes(&left.torrent_info_hash, &right.torrent_info_hash),
        ) == Comparison::Less
    }
}

proof fn tracked_at_are_records(peers: Seq<PeerManagerTrackedPeer>, ip: IpAddr)
    requires
        peers.len() <= usize::MAX,
    ensures
        forall|k: int|
            0 <= k < tracked_at(peers, ip).len() ==> #[trigger] tracked_at(peers, ip)[k]
                < peers.len(),
        tracked_at(peers, ip).len() <= peers.len(),
{
    broadcast use vstd::seq_lib::group_to_multiset_ensures;

    let test = |i: usize| normalized_ip(peers[i as int].ip) == ip;
    let chosen = kept(positions(peers.len()), test);
    let before = |a: usize, b: usize|
        tracked_comparison(peers, a as int, b as int) == Comparison::Less;
    stably_sorted_keeps_items(chosen, before);
    kept_contains(positions(peers.len()), test);
    let out = tracked_at(peers, ip);
    assert forall|k: int| 0 <= k < out.len() implies #[trigger] out[k] < peers.len() by {
        assert(out.contains(out[k]));
        assert(out.to_multiset().count(out[k]) > 0);
        assert(chosen.to_multiset().count(out[k]) > 0);
        assert(chosen.contains(out[k]));
        assert(positions(peers.len()).contains(out[k]));
        let j = choose|j: int|
            0 <= j < positions(peers.len()).len() && positions(peers.len())[j] == out[k];
        assert(positions(peers.len())[j] == j as usize);
    }
}

fn tracked_records(peers: &Vec<PeerManagerTrackedPeer>, ip: IpAddr) -> (indices: Vec<usize>)
    ensures
        indices@ == tracked_at(peers@, ip),
        forall|k: int| 0 <= k < indices@.len() ==> #[trigger] indices@[k] < peers@.len(),
{
    let ghost test = |i: usize| normalized_ip(peers@[i as int].ip) == ip;
    let mut chosen: Vec<usize> = Vec::new();
    let mut i: usize = 0;
    while i < peers.len()
        invariant
            i <= peers@.len(),
            test == (|i: usize| normalized_ip(peers@[i as int].ip) == ip),
            chosen@ == kept(positions(i as nat), test),
            forall|k: int| 0 <= k < chosen@.len() ==> #[trigger] chosen@[k] < peers@.len(),
        decreases peers@.len() - i,
    {
        assert(positions((i + 1) as nat).drop_last() =~= positions(i as nat));
        if normalize_peer_ip(peers[i].ip) == ip {
            chosen.push(i);
        }
        i = i + 1;
    }
    let order = TrackedOrder { peers };
    let indices = stable_sort(&chosen, &order);
    proof {
        let before = |a: usize, b: usize|
            tracked_comparison(peers@, a as int, b as int) == Comparison::Less;
        assert(order_of::<usize, TrackedOrder>(&order) =~= before);
        assert(peers.len() <= usize::MAX);
        tracked_at_are_records(peers@, ip);
    }
    indices
}

/// The restriction of an address at a moment: of several the one that lasts
/// longest, and of those the first.
pub open spec fn restriction_at(
    restrictions: Seq<RestrictedPeer>,
    ip: IpAddr,
    now: u128,
) -> Option<RestrictionView>
    decreases restrictions.len(),
{
    if restrictions.len() == 0 {
        None
    } else {
        let before = restriction_at(restrictions.drop_last(), ip, now);
        let last = restrictions.last();
        if last.restriction.blocked_until > now && normalized_ip(last.ip) == ip && (match before {
            Some(before) => last.restriction.blocked_until > before.blocked_until,
            None => true,
        }) {
            Some(last.restriction@)
        } else {
            before
        }
    }
}

fn restriction_of(restrictions: &Vec<RestrictedPeer>, ip: IpAddr, now: u128) -> (restriction: Option<
    PeerRestriction,
>)
    ensures
        restriction_view(restriction) == restriction_at(restrictions@, ip, now),
{
    let mut best: Option<PeerRestriction> = None;
    let mut i: usize = 0;
    assert(restrictions@.take(0) =~= Seq::<RestrictedPeer>::empty());
    while i < restrictions.len()
        invariant
            i <= restrictions@.len(),
            restriction_view(best) == restriction_at(restrictions@.take(i as int), ip, now),
        decreases restrictions@.len() - i,
    {
        assert(restrictions@.take(i + 1).drop_last() =~= restrictions@.take(i as int));
        let entry = &restrictions[i];
        if entry.restriction.blocked_until > now && normalize_peer_ip(entry.ip) == ip {
            let longer = match &best {
                Some(best) => entry.restriction.blocked_until > best.blocked_until,
                None => true,
            };
            if longer {
                best = Some(entry.restriction.copy());
            }
        }
        i = i + 1;
    }
    assert(restrictions@.take(i as int) =~= restrictions@);
    best
}

/// The hashes of the torrents of some records.
pub open spec fn record_hashes(
    peers: Seq<PeerManagerTrackedPeer>,
    indices: Seq<usize>,
) -> Seq<Seq<u8>> {
    indices.map_values(|i: usize| peers[i as int].torrent_info_hash@)
}

/// In how many torrents a peer was seen or is restricted for.
pub open spec fn torrents_of(
    peers: Seq<PeerManagerTrackedPeer>,
    indices: Seq<usize>,
    restriction: Option<RestrictionView>,
) -> int {
    let hashes = record_hashes(peers, indices);
    distinct(
        match restriction {
            Some(restriction) => match restriction.torrent_info_hash {
                Some(hash) => hashes.push(hash),
                None => hashes,
            },
            None => hashes,
        },
    ).len() as int
}

proof fn adding_is_distinct(list: Seq<Seq<u8>>)
    ensures
        added(Seq::empty(), list) == distinct(list),
    decreases list.len(),
{
    if list.len() > 0 {
        adding_is_distinct(list.drop_last());
    }
}

fn count_torrents(
    peers: &Vec<PeerManagerTrackedPeer>,
    indices: &Vec<usize>,
    restriction: &Option<PeerRestriction>,
) -> (count: usize)
    requires
        forall|k: int| 0 <= k < indices@.len() ==> #[trigger] indices@[k] < peers@.len(),
    ensures
        count == torrents_of(peers@, indices@, restriction_view(*restriction)),
{
    let ghost hashes = record_hashes(peers@, indices@);
    let mut all: Vec<Vec<u8>> = Vec::new();
    let mut k: usize = 0;
    assert(byte_strings(all@) =~= hashes.take(0));
    while k < indices.len()
        invariant
            k <= indices@.len(),
            hashes == record_hashes(peers@, indices@),
            forall|k: int| 0 <= k < indices@.len() ==> #[trigger] indices@[k] < peers@.len(),
            byte_strings(all@) == hashes.take(k as int),
        decreases indices@.len() - k,
    {
        let ghost was = byte_strings(all@);
        all.push(copy_bytes(&peers[indices[k]].torrent_info_hash));
        assert(byte_strings(all@) =~= was.push(hashes[k as int]));
        k = k + 1;
        assert(byte_strings(all@) =~= hashes.take(k as int));
    }
    assert(hashes.take(k as int) =~= hashes);
    if let Some(restriction) = restriction {
        if let Some(hash) = &restriction.torrent_info_hash {
            let ghost was = byte_strings(all@);
            all.push(copy_bytes(hash));
            assert(byte_strings(all@) =~= was.push(hash@));
        }
    }
    let mut seen: Vec<Vec<u8>> = Vec::new();
    assert(byte_strings(seen@) =~= Seq::<Seq<u8>>::empty());
    add_bytes(&mut seen, &all);
    proof {
        adding_is_distinct(byte_strings(all@));
        assert(byte_strings(seen@).len() == seen@.len());
    }
    seen.len()
}

/// The later of two moments; none is the earliest.
pub open spec fn later_moment(a: Option<u128>, b: Option<u128>) -> Option<u128> {
    match (a, b) {
        (Some(x), Some(y)) => if x > y {
            a
        } else {
            b
        },
        (None, _) => b,
        (_, None) => a,
    }
}

/// Sums over some records, as far as a machine can count, and whether any is of a
/// live connection, and when the last sign came.
#[verifier::ext_equal]
pub struct PeerTotals {
    pub is_active: bool,
    pub last_seen: Option<u128>,
    pub connections: int,
    pub disconnects: int,
    pub downloaded: int,
    pub uploaded: int,
}

pub open spec fn peer_totals(
    peers: Seq<PeerManagerTrackedPeer>,
    indices: Seq<usize>,
) -> PeerTotals
    decreases indices.len(),
{
    if indices.len() == 0 {
        PeerTotals {
            is_active: false,
            last_seen: None,
            connections: 0,
            disconnects: 0,
            downloaded: 0,
            uploaded: 0,
        }
    } else {
        let sum = peer_totals(peers, indices.drop_last());
        let peer = peers[indices.last() as int];
        PeerTotals {
            is_active: sum.is_active || peer.is_active,
            last_seen: later_moment(sum.last_seen, peer.last_seen),
            connections: capped(sum.connections + peer.connection_count),
            disconnects: capped(sum.disconnects + peer.disconnect_count),
            downloaded: capped(sum.downloaded + peer.total_downloaded_bytes),
            uploaded: capped(sum.uploaded + peer.total_uploaded_bytes),
        }
    }
}

// ---------------------------------------------------------------- the clients

/// Whether a client's name says that it was not recognized.
pub open spec fn is_unknown_client(client: Seq<char>) -> bool {
    client == "Unknown"@ || begins_with(client, "Unknown ("@)
}

pub fn is_unknown_client_label(client: &str) -> (unknown: bool)
    ensures
        unknown == is_unknown_client(client@),
{
    same_text(client, "Unknown") || starts_with(client, "Unknown (")
}

/// How some clients are listed: each once, in alphabetical order, and those that
/// were not recognized only if there are no others.
pub open spec fn clients_text(clients: Seq<Seq<char>>) -> Seq<char> {
    let all = sorted_texts(distinct_texts(clients));
    let resolved = kept(all, |client: Seq<char>| !is_unknown_client(client));
    if all.len() == 0 {
        "Unknown"@
    } else if resolved.len() == 0 {
        separated(all, ", "@)
    } else {
        separated(resolved, ", "@)
    }
}

/// How some clients are listed.
pub fn preferred_client_label(clients: &Vec<String>) -> (label: String)
    ensures
        label@ == clients_text(texts(clients@)),
{
    let ghost list = texts(clients@);
    let mut seen: Vec<String> = Vec::new();
    let mut i: usize = 0;
    assert(texts(seen@) =~= Seq::<Seq<char>>::empty());
    assert(list.take(0) =~= Seq::<Seq<char>>::empty());
    while i < clients.len()
        invariant
            i <= clients@.len(),
            list == texts(clients@),
            texts(seen@) == distinct_texts(list.take(i as int)),
        decreases clients@.len() - i,
    {
        assert(list.take(i + 1).drop_last() =~= list.take(i as int));
        assert(list.take(i + 1).last() == clients@[i as int]@);
        add_text(&mut seen, clients[i].as_str());
        i = i + 1;
    }
    assert(list.take(i as int) =~= list);
    let all = sort_texts(&seen);
    assert(texts(all@).len() == all@.len());
    if all.len() == 0 {
        return owned("Unknown");
    }
    let ghost sorted = texts(all@);
    let ghost test = |client: Seq<char>| !is_unknown_client(client);
    let mut resolved: Vec<String> = Vec::new();
    let mut j: usize = 0;
    assert(texts(resolved@) =~= Seq::<Seq<char>>::empty());
    assert(sorted.take(0) =~= Seq::<Seq<char>>::empty());
    while j < all.len()
        invariant
            j <= all@.len(),
            sorted == texts(all@),
            test == (|client: Seq<char>| !is_unknown_client(client)),
            texts(resolved@) == kept(sorted.take(j as int), test),
        decreases all@.len() - j,
    {
        assert(sorted.take(j + 1).drop_last() =~= sorted.take(j as int));
        assert(sorted.take(j + 1).last() == all@[j as int]@);
        if !is_unknown_client_label(all[j].as_str()) {
            let ghost was = texts(resolved@);
            resolved.push(all[j].clone());
            assert(texts(resolved@) =~= was.push(all@[j as int]@));
        }
        j = j + 1;
    }
    assert(sorted.take(j as int) =~= sorted);
    assert(texts(resolved@).len() == resolved@.len());
    if resolved.len() == 0 {
        join_with(&all, ", ")
    } else {
        join_with(&resolved, ", ")
    }
}

/// The clients of some records.
pub open spec fn record_clients(
    peers: Seq<PeerManagerTrackedPeer>,
    indices: Seq<usize>,
) -> Seq<Seq<char>>
    decreases indices.len(),
{
    if indices.len() == 0 {
        Seq::empty()
    } else {
        record_clients(peers, indices.drop_last()) + texts(peers[indices.last() as int].clients@)
    }
}

/// How the clients of some records are listed.
#[verifier::loop_isolation(false)]
pub fn peer_client_label(peers: &Vec<PeerManagerTrackedPeer>, indices: &Vec<usize>) -> (label:
    String)
    requires
        forall|k: int| 0 <= k < indices@.len() ==> #[trigger] indices@[k] < peers@.len(),
    ensures
        label@ == clients_text(record_clients(peers@, indices@)),
{
    let mut clients: Vec<String> = Vec::new();
    let mut k: usize = 0;
    assert(texts(clients@) =~= Seq::<Seq<char>>::empty());
    assert(indices@.take(0) =~= Seq::<usize>::empty());
    while k < indices.len()
        invariant
            k <= indices@.len(),
            texts(clients@) == record_clients(peers@, indices@.take(k as int)),
        decreases indices@.len() - k,
    {
        assert(indices@.take(k + 1).drop_last() =~= indices@.take(k as int));
        let more = &peers[indices[k]].clients;
        let ghost base = texts(clients@);
        let mut j: usize = 0;
        assert(base + texts(more@).take(0) =~= base);
        while j < more.len()
            invariant
                j <= more@.len(),
                texts(clients@) == base + texts(more@).take(j as int),
            decreases more@.len() - j,
        {
            let ghost was = texts(clients@);
            clients.push(more[j].clone());
            assert(texts(clients@) =~= was.push(more@[j as int]@));
            assert(texts(more@).take(j + 1) =~= texts(more@).take(j as int).push(
                more@[j as int]@,
            ));
            assert(was.push(more@[j as int]@) =~= base + texts(more@).take(j + 1));
            j = j + 1;
        }
        assert(texts(more@).take(j as int) =~= texts(more@));
        k = k + 1;
    }
    assert(indices@.take(k as int) =~= indices@);
    preferred_client_label(&clients)
}

// ------------------------------------------------------------- one row, complete

/// All that the table knows of an address at a moment.
pub open spec fn facts_at(
    peers: Seq<PeerManagerTrackedPeer>,
    restrictions: Seq<RestrictedPeer>,
    ip: IpAddr,
    now: u128,
) -> PeerFacts {
    let records = tracked_at(peers, ip);
    let restriction = restriction_at(restrictions, ip, now);
    let sum = peer_totals(peers, records);
    PeerFacts {
        ip,
        records,
        restriction,
        torrent_count: torrents_of(peers, records, restriction),
        is_active: sum.is_active,
        last_seen: sum.last_seen,
        evidence: strongest(all_evidence(peers, records, restriction)),
        client: clients_text(record_clients(peers, records)),
        connections: sum.connections,
        disconnects: sum.disconnects,
        downloaded: sum.downloaded,
        uploaded: sum.uploaded,
    }
}

pub(crate) fn build_row(
    peers: &Vec<PeerManagerTrackedPeer>,
    restrictions: &Vec<RestrictedPeer>,
    ip: IpAddr,
    now: u128,
) -> (row: PeerRowModel)
    ensures
        row@ == facts_at(peers@, restrictions@, ip, now),
{
    let records = tracked_records(peers, ip);
    let restriction = restriction_of(restrictions, ip, now);
    let torrent_count = count_torrents(peers, &records, &restriction);
    let strongest_evidence = strongest_peer_evidence(peers, &records, &restriction);
    let client_label = peer_client_label(peers, &records);
    let mut is_active = false;
    let mut last_seen: Option<u128> = None;
    let mut connections: u64 = 0;
    let mut disconnects: u64 = 0;
    let mut downloaded: u64 = 0;
    let mut uploaded: u64 = 0;
    let mut k: usize = 0;
    assert(records@.take(0) =~= Seq::<usize>::empty());
    while k < records.len()
        invariant
            k <= records@.len(),
            forall|k: int| 0 <= k < records@.len() ==> #[trigger] records@[k] < peers@.len(),
            peer_totals(peers@, records@.take(k as int)) == (PeerTotals {
                is_active,
                last_seen,
                connections: connections as int,
                disconnects: disconnects as int,
                downloaded: downloaded as int,
                uploaded: uploaded as int,
            }),
        decreases records@.len() - k,
    {
        assert(records@.take(k + 1).drop_last() =~= records@.take(k as int));
        let peer = &peers[records[k]];
        is_active = is_active || peer.is_active;
        last_seen =
        match (last_seen, peer.last_seen) {
            (Some(x), Some(y)) => if x > y {
                Some(x)
            } else {
                Some(y)
            },
            (None, moment) => moment,
            (moment, None) => moment,
        };
        connections = connections.saturating_add(peer.connection_count);
        disconnects = disconnects.saturating_add(peer.disconnect_count);
        downloaded = downloaded.saturating_add(peer.total_downloaded_bytes);
        uploaded = uploaded.saturating_add(peer.total_uploaded_bytes);
        k = k + 1;
    }
    assert(records@.take(k as int) =~= records@);
    PeerRowModel {
        ip,
        tracked_indices: records,
        restriction,
        torrent_count,
        is_active,
        last_seen,
        strongest_evidence,
        client_label,
        connection_count: connections,
        disconnect_count: disconnects,
        total_downloaded_bytes: downloaded,
        total_uploaded_bytes: uploaded,
    }
}

} // verus!
