//! What the session knows of its peers.
use crate::lists::copy_bytes;
use crate::order::Comparison;
use crate::text::{decimal, format_number, hex_digit, join};
use vstd::prelude::*;
use vstd::string::StringExecFns;

verus! {

/// An address of a peer, as the number that its bytes spell.
#[derive(Clone, Copy, Debug, PartialEq, Eq, Structural)]
pub enum IpAddr {
    V4(u32),
    V6(u128),
}

/// Addresses of the old kind come before those of the new kind, and each are
/// ordered by their bytes.
pub open spec fn by_ip(a: IpAddr, b: IpAddr) -> Comparison {
    match (a, b) {
        (IpAddr::V4(x), IpAddr::V4(y)) => crate::order::by_number(x as int, y as int),
        (IpAddr::V4(_), IpAddr::V6(_)) => Comparison::Less,
        (IpAddr::V6(_), IpAddr::V4(_)) => Comparison::Greater,
        (IpAddr::V6(x), IpAddr::V6(y)) => crate::order::by_number(x as int, y as int),
    }
}

pub fn compare_ips(a: IpAddr, b: IpAddr) -> (c: Comparison)
    ensures
        c == by_ip(a, b),
{
    match (a, b) {
        (IpAddr::V4(x), IpAddr::V4(y)) => crate::order::compare_numbers(x as u128, y as u128),
        (IpAddr::V4(_), IpAddr::V6(_)) => Comparison::Less,
        (IpAddr::V6(_), IpAddr::V4(_)) => Comparison::Greater,
        (IpAddr::V6(x), IpAddr::V6(y)) => crate::order::compare_numbers(x, y),
    }
}

/// The first number of the block of new addresses that stand for old ones.
pub const MAPPED_FIRST: u128 = 0xffff_0000_0000;

/// An address of the old kind that is written as one of the new kind is the same
/// peer as that of the old kind.
pub open spec fn normalized_ip(ip: IpAddr) -> IpAddr {
    match ip {
        IpAddr::V6(n) => if MAPPED_FIRST <= n <= MAPPED_FIRST + u32::MAX {
            IpAddr::V4((n - MAPPED_FIRST) as u32)
        } else {
            ip
        },
        IpAddr::V4(_) => ip,
    }
}

/// The address under which a peer is kept.
pub fn normalize_peer_ip(ip: IpAddr) -> (normal: IpAddr)
    ensures
        normal == normalized_ip(ip),
{
    match ip {
        IpAddr::V6(n) => if MAPPED_FIRST <= n && n - MAPPED_FIRST <= 0xffff_ffff {
            IpAddr::V4((n - MAPPED_FIRST) as u32)
        } else {
            ip
        },
        IpAddr::V4(_) => ip,
    }
}

/// Normalizing an address twice is normalizing it once.
pub proof fn normalizing_is_idempotent(ip: IpAddr)
    ensures
        normalized_ip(normalized_ip(ip)) == normalized_ip(ip),
{
}

// ------------------------------------------------------- addresses as texts

/// A number in hexadecimal, without leading zeros.
pub open spec fn hex_number(n: nat) -> Seq<char>
    decreases n,
{
    if n < 16 {
        seq![hex_digit(n as int)]
    } else {
        hex_number(n / 16).push(hex_digit((n % 16) as int))
    }
}

fn hex_digit_char(d: u16) -> (c: char)
    requires
        d < 16,
    ensures
        c == hex_digit(d as int),
{
    match d {
        0 => '0',
        1 => '1',
        2 => '2',
        3 => '3',
        4 => '4',
        5 => '5',
        6 => '6',
        7 => '7',
        8 => '8',
        9 => '9',
        10 => 'a',
        11 => 'b',
        12 => 'c',
        13 => 'd',
        14 => 'e',
        _ => 'f',
    }
}

/// A number in hexadecimal.
pub fn format_hex(n: u16) -> (text: String)
    ensures
        text@ == hex_number(n as nat),
    decreases n,
{
    if n < 16 {
        let mut text = String::new();
        text.push(hex_digit_char(n));
        assert(text@ =~= seq![hex_digit(n as int)]);
        text
    } else {
        let mut text = format_hex(n / 16);
        text.push(hex_digit_char(n % 16));
        text
    }
}

/// The four numbers of an address of the old kind, with dots between.
pub open spec fn dotted(n: int) -> Seq<char> {
    decimal((n / 0x100_0000) as nat) + "."@ + decimal((n / 0x1_0000 % 0x100) as nat) + "."@
        + decimal((n / 0x100 % 0x100) as nat) + "."@ + decimal((n % 0x100) as nat)
}

/// The eight groups of an address of the new kind.
pub open spec fn groups_of(n: int) -> Seq<int> {
    Seq::new(8, |i: int| n / power16(7 - i) % 0x1_0000)
}

/// How far a group is shifted.
pub open spec fn power16(k: int) -> int
    decreases k,
{
    if k <= 0 {
        1
    } else {
        0x1_0000 * power16(k - 1)
    }
}

/// Where the longest run of zero groups begins and how long it is; the first one
/// if there are several.
pub open spec fn zero_run(groups: Seq<int>) -> (int, int)
    decreases groups.len(),
{
    if groups.len() == 0 {
        (0, 0)
    } else {
        let before = zero_run(groups.drop_last());
        let tail = zeros_at_end(groups);
        if tail > before.1 {
            (groups.len() - tail, tail)
        } else {
            before
        }
    }
}

/// How many groups at the end are zero.
pub open spec fn zeros_at_end(groups: Seq<int>) -> int
    decreases groups.len(),
{
    if groups.len() == 0 || groups.last() != 0 {
        0
    } else {
        1 + zeros_at_end(groups.drop_last())
    }
}

/// Groups in hexadecimal with colons between.
pub open spec fn with_colons(groups: Seq<int>) -> Seq<char>
    decreases groups.len(),
{
    if groups.len() == 0 {
        Seq::empty()
    } else if groups.len() == 1 {
        hex_number(groups[0] as nat)
    } else {
        with_colons(groups.drop_last()) + ":"@ + hex_number(groups.last() as nat)
    }
}

/// How an address is written: the longest run of two or more zero groups is left
/// out, and an address that stands for one of the old kind shows that.
pub open spec fn ip_text(ip: IpAddr) -> Seq<char> {
    match ip {
        IpAddr::V4(n) => dotted(n as int),
        IpAddr::V6(n) => if normalized_ip(ip) is V4 {
            "::ffff:"@ + dotted(n - MAPPED_FIRST)
        } else {
            let groups = groups_of(n as int);
            let (start, len) = zero_run(groups);
            if len > 1 {
                with_colons(groups.take(start)) + "::"@ + with_colons(groups.skip(start + len))
            } else {
                with_colons(groups)
            }
        },
    }
}

fn format_dotted(n: u32) -> (text: String)
    ensures
        text@ == dotted(n as int),
{
    let mut text = format_number((n / 0x100_0000) as u64);
    text.append(".");
    text.append(format_number((n / 0x1_0000 % 0x100) as u64).as_str());
    text.append(".");
    text.append(format_number((n / 0x100 % 0x100) as u64).as_str());
    text.append(".");
    text.append(format_number((n % 0x100) as u64).as_str());
    text
}

pub open spec fn group_values(groups: Seq<u16>) -> Seq<int> {
    groups.map_values(|group: u16| group as int)
}

fn groups(n: u128) -> (groups: Vec<u16>)
    ensures
        group_values(groups@) == groups_of(n as int),
{
    let mut groups: Vec<u16> = Vec::new();
    proof {
        reveal_with_fuel(power16, 8);
    }
    groups.push((n / 0x1_0000_0000_0000_0000_0000_0000_0000 % 0x1_0000) as u16);
    groups.push((n / 0x1_0000_0000_0000_0000_0000_0000 % 0x1_0000) as u16);
    groups.push((n / 0x1_0000_0000_0000_0000_0000 % 0x1_0000) as u16);
    groups.push((n / 0x1_0000_0000_0000_0000 % 0x1_0000) as u16);
    groups.push((n / 0x1_0000_0000_0000 % 0x1_0000) as u16);
    groups.push((n / 0x1_0000_0000 % 0x1_0000) as u16);
    groups.push((n / 0x1_0000 % 0x1_0000) as u16);
    groups.push((n % 0x1_0000) as u16);
    assert(group_values(groups@) =~= groups_of(n as int));
    groups
}

fn colons(groups: &Vec<u16>, from: usize, to: usize) -> (text: String)
    requires
        from <= to <= groups@.len(),
    ensures
        text@ == with_colons(group_values(groups@).subrange(from as int, to as int)),
{
    let ghost all = group_values(groups@);
    let mut text = String::new();
    let mut i: usize = from;
    assert(all.subrange(from as int, from as int) =~= Seq::<int>::empty());
    while i < to
        invariant
            from <= i <= to <= groups@.len(),
            all == group_values(groups@),
            text@ == with_colons(all.subrange(from as int, i as int)),
        decreases to - i,
    {
        let ghost next = all.subrange(from as int, i + 1);
        assert(next.drop_last() =~= all.subrange(from as int, i as int));
        assert(next.last() == groups@[i as int] as int);
        if i > from {
            text.append(":");
        } else {
            assert(text@ =~= Seq::<char>::empty());
        }
        text.append(format_hex(groups[i]).as_str());
        assert(text@ =~= with_colons(next));
        i = i + 1;
    }
    text
}

fn longest_zero_run(groups: &Vec<u16>) -> (run: (usize, usize))
    ensures
        (run.0 as int, run.1 as int) == zero_run(group_values(groups@)),
        run.0 + run.1 <= groups@.len(),
{
    let ghost all = group_values(groups@);
    let mut start: usize = 0;
    let mut len: usize = 0;
    let mut tail: usize = 0;
    let mut i: usize = 0;
    assert(all.take(0) =~= Seq::<int>::empty());
    while i < groups.len()
        invariant
            i <= groups@.len(),
            all == group_values(groups@),
            (start as int, len as int) == zero_run(all.take(i as int)),
            tail == zeros_at_end(all.take(i as int)),
            tail <= i,
            start + len <= i,
        decreases groups@.len() - i,
    {
        assert(all.take(i + 1).drop_last() =~= all.take(i as int));
        assert(all.take(i + 1).last() == groups@[i as int] as int);
        if groups[i] == 0 {
            tail = tail + 1;
        } else {
            tail = 0;
        }
        if tail > len {
            start = i + 1 - tail;
            len = tail;
        }
        i = i + 1;
    }
    assert(all.take(i as int) =~= all);
    (start, len)
}

/// How an address is written.
pub fn format_ip(ip: IpAddr) -> (text: String)
    ensures
        text@ == ip_text(ip),
{
    match ip {
        IpAddr::V4(n) => format_dotted(n),
        IpAddr::V6(n) => match normalize_peer_ip(ip) {
            IpAddr::V4(mapped) => join("::ffff:", format_dotted(mapped).as_str()),
            IpAddr::V6(_) => {
                let groups = groups(n);
                let (start, len) = longest_zero_run(&groups);
                let ghost all = group_values(groups@);
                if len > 1 {
                    let mut text = colons(&groups, 0, start);
                    text.append("::");
                    text.append(colons(&groups, start + len, groups.len()).as_str());
                    assert(all.subrange(0, start as int) =~= all.take(start as int));
                    assert(all.subrange(start + len, groups@.len() as int) =~= all.skip(
                        start + len,
                    ));
                    text
                } else {
                    assert(all.subrange(0, groups@.len() as int) =~= all);
                    colons(&groups, 0, groups.len())
                }
            },
        },
    }
}

// -------------------------------------------------------------- the records

/// One address and port under which a peer was seen. `shown_address` is the
/// address made fit for a terminal.
#[derive(Clone, Debug, PartialEq, Eq)]
pub struct PeerManagerEndpointView {
    pub address: String,
    pub shown_address: String,
    pub total_downloaded: u64,
    pub total_uploaded: u64,
}

/// What is known of a peer in one torrent. Moments are nanoseconds since the
/// epoch. `shown_name` and `masked_name` stand for the torrent's name as in
/// `TorrentDisplayState`.
#[derive(Clone, Debug, PartialEq, Eq)]
pub struct PeerManagerTrackedPeer {
    pub torrent_info_hash: Vec<u8>,
    pub torrent_name: String,
    pub shown_name: String,
    pub masked_name: String,
    pub ip: IpAddr,
    pub is_active: bool,
    pub endpoints: Vec<PeerManagerEndpointView>,
    pub downloaded_evidence_bytes: u64,
    pub uploaded_evidence_bytes: u64,
    pub total_downloaded_bytes: u64,
    pub total_uploaded_bytes: u64,
    pub connection_count: u64,
    pub disconnect_count: u64,
    pub transfer_threshold_bytes: u64,
    pub reconnect_count: u32,
    pub reconnect_limit: u32,
    pub reconnect_window_secs: u64,
    pub last_seen: Option<u128>,
    pub clients: Vec<String>,
}

/// Why a peer is kept out.
#[derive(Clone, Copy, Debug, PartialEq, Eq, Structural)]
pub enum PeerRestrictionReason {
    ExcessiveUpload { uploaded_bytes: u64, threshold_bytes: u64 },
    ExcessiveDownload { downloaded_bytes: u64, threshold_bytes: u64 },
    ReconnectChurn { reconnects: u32, threshold: u32, window_secs: u64 },
    Manual,
}

/// A peer that is kept out until some moment.
#[derive(Clone, Debug, PartialEq, Eq)]
pub struct PeerRestriction {
    pub torrent_info_hash: Option<Vec<u8>>,
    pub reason: PeerRestrictionReason,
    pub detected_at: u128,
    pub blocked_until: u128,
}

#[verifier::ext_equal]
pub struct RestrictionView {
    pub torrent_info_hash: Option<Seq<u8>>,
    pub reason: PeerRestrictionReason,
    pub detected_at: u128,
    pub blocked_until: u128,
}

impl View for PeerRestriction {
    type V = RestrictionView;

    open spec fn view(&self) -> RestrictionView {
        RestrictionView {
            torrent_info_hash: crate::app::bytes_view(self.torrent_info_hash),
            reason: self.reason,
            detected_at: self.detected_at,
            blocked_until: self.blocked_until,
        }
    }
}

impl PeerRestriction {
    /// A copy of the restriction.
    pub fn copy(&self) -> (copy: PeerRestriction)
        ensures
            copy@ == self@,
    {
        PeerRestriction {
            torrent_info_hash: match &self.torrent_info_hash {
                Some(hash) => Some(copy_bytes(hash)),
                None => None,
            },
            reason: self.reason,
            detected_at: self.detected_at,
            blocked_until: self.blocked_until,
        }
    }
}

/// A restricted address.
#[derive(Clone, Debug, PartialEq, Eq)]
pub struct RestrictedPeer {
    pub ip: IpAddr,
    pub restriction: PeerRestriction,
}

} // verus!
