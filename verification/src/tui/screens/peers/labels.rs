//! How addresses, names and times are written in peer management.
use crate::geometry::monus;
use crate::order::SortDirection;
use crate::peer_manager::{format_ip, ip_text, IpAddr};
use crate::text::{decimal, first_chars, format_number, hex_encode, hex_text, join, join3, owned};
use vstd::prelude::*;
use vstd::string::{StrSliceExecFns, StringExecFns, StringSliceAdditionalSpecFns};
use vstd::utf8::encode_utf8;

verus! {

/// Whether a label fits into a column.
pub open spec fn fits(label: Seq<char>, width: int) -> bool {
    label.len() <= width
}

/// Whether a label fits into a column.
pub fn fits_column(label: &str, width: u16) -> (fits: bool)
    ensures
        fits == self::fits(label@, width as int),
{
    label.unicode_len() <= width as usize
}

// ------------------------------------------------------------------- times

pub const NANOS_PER_SECOND: u128 = 1_000_000_000;

pub const STATE_COLUMN_WIDTH: u16 = 18;

pub const LAST_SEEN_COLUMN_WIDTH: u16 = 12;

pub const RESTRICTION_REMAINING_WIDTH: u16 = 12;

/// A number of seconds in its two highest units, or in one below an hour.
pub open spec fn duration_text(seconds: int) -> Seq<char> {
    let days = seconds / 86_400;
    let hours = seconds % 86_400 / 3_600;
    let minutes = seconds % 3_600 / 60;
    if days > 0 {
        decimal(days as nat) + "d "@ + decimal(hours as nat) + "h"@
    } else if hours > 0 {
        decimal(hours as nat) + "h "@ + decimal(minutes as nat) + "m"@
    } else if minutes > 0 {
        decimal(minutes as nat) + "m"@
    } else {
        decimal((seconds % 60) as nat) + "s"@
    }
}

/// A number of seconds in its two highest units, or in one below an hour.
pub fn compact_duration(seconds: u64) -> (text: String)
    ensures
        text@ == duration_text(seconds as int),
{
    let days: u64 = seconds / 86_400;
    let hours: u64 = seconds % 86_400 / 3_600;
    let minutes: u64 = seconds % 3_600 / 60;
    let rest: u64 = seconds % 60;
    if days > 0 {
        let mut text = join3(format_number(days).as_str(), "d ", format_number(hours).as_str());
        text.append("h");
        text
    } else if hours > 0 {
        let mut text = join3(format_number(hours).as_str(), "h ", format_number(minutes).as_str());
        text.append("m");
        text
    } else if minutes > 0 {
        join(format_number(minutes).as_str(), "m")
    } else {
        join(format_number(rest).as_str(), "s")
    }
}

/// Whole seconds in some nanoseconds, as many as fit.
pub open spec fn whole_seconds(nanos: int) -> int {
    if nanos / 1_000_000_000 > u64::MAX {
        u64::MAX as int
    } else {
        nanos / 1_000_000_000
    }
}

fn seconds_in(nanos: u128) -> (seconds: u64)
    ensures
        seconds == whole_seconds(nanos as int),
{
    let seconds: u128 = nanos / NANOS_PER_SECOND;
    if seconds > 0xffff_ffff_ffff_ffff {
        0xffff_ffff_ffff_ffff
    } else {
        seconds as u64
    }
}

fn since(later: u128, earlier: u128) -> (nanos: u128)
    ensures
        nanos == monus(later as int, earlier as int),
{
    if later >= earlier {
        later - earlier
    } else {
        0
    }
}

/// How long ago a moment was; moments to come count as now.
pub open spec fn elapsed_text(now: int, time: int) -> Seq<char> {
    let elapsed = monus(now, time);
    if elapsed < 1_000_000_000 {
        "<1s ago"@
    } else {
        let label = duration_text(whole_seconds(elapsed)) + " ago"@;
        if fits(label, LAST_SEEN_COLUMN_WIDTH as int) {
            label
        } else {
            ">999d ago"@
        }
    }
}

/// How long ago a moment was.
pub fn format_elapsed(now: u128, time: u128) -> (text: String)
    ensures
        text@ == elapsed_text(now as int, time as int),
{
    let elapsed = since(now, time);
    if elapsed < NANOS_PER_SECOND {
        return owned("<1s ago");
    }
    let label = join(compact_duration(seconds_in(elapsed)).as_str(), " ago");
    if fits_column(label.as_str(), LAST_SEEN_COLUMN_WIDTH) {
        label
    } else {
        owned(">999d ago")
    }
}

/// How long it is until a moment; moments past count as reached.
pub open spec fn remaining_text(now: int, deadline: int) -> Seq<char> {
    let remaining = monus(deadline, now);
    if remaining == 0 {
        "expired"@
    } else {
        let label = duration_text(whole_seconds(remaining)) + " left"@;
        if fits(label, RESTRICTION_REMAINING_WIDTH as int) {
            label
        } else {
            ">99d left"@
        }
    }
}

/// How long it is until a moment.
pub fn format_remaining(now: u128, deadline: u128) -> (text: String)
    ensures
        text@ == remaining_text(now as int, deadline as int),
{
    let remaining = since(deadline, now);
    if remaining == 0 {
        return owned("expired");
    }
    let label = join(compact_duration(seconds_in(remaining)).as_str(), " left");
    if fits_column(label.as_str(), RESTRICTION_REMAINING_WIDTH) {
        label
    } else {
        owned(">99d left")
    }
}

/// The state of a peer in the table, with the time left while it is blocked.
pub open spec fn blocked_text(now: int, blocked_until: int) -> Seq<char> {
    let remaining = monus(blocked_until, now);
    if remaining == 0 {
        "BLOCKED expired"@
    } else {
        let label = "BLOCKED "@ + duration_text(whole_seconds(remaining));
        if fits(label, STATE_COLUMN_WIDTH as int) {
            label
        } else {
            "BLOCKED >999d"@
        }
    }
}

pub fn blocked_label(now: u128, blocked_until: u128) -> (text: String)
    ensures
        text@ == blocked_text(now as int, blocked_until as int),
{
    let remaining = since(blocked_until, now);
    if remaining == 0 {
        return owned("BLOCKED expired");
    }
    let label = join("BLOCKED ", compact_duration(seconds_in(remaining)).as_str());
    if fits_column(label.as_str(), STATE_COLUMN_WIDTH) {
        label
    } else {
        owned("BLOCKED >999d")
    }
}

/// Labels of times never take more columns than theirs.
pub proof fn time_labels_fit(now: int, time: int)
    ensures
        elapsed_text(now, time).len() <= LAST_SEEN_COLUMN_WIDTH,
        remaining_text(now, time).len() <= RESTRICTION_REMAINING_WIDTH,
        blocked_text(now, time).len() <= STATE_COLUMN_WIDTH,
{
    reveal_strlit("<1s ago");
    reveal_strlit(">999d ago");
    reveal_strlit("expired");
    reveal_strlit(">99d left");
    reveal_strlit("BLOCKED expired");
    reveal_strlit("BLOCKED >999d");
}

// ------------------------------------------------------------------- masks

/// The start of the hash that masks identities.
pub const MASK_OFFSET: u64 = 0xcbf29ce484222325;

/// What that hash is multiplied by at each byte.
pub const MASK_PRIME: u64 = 0x100000001b3;

/// One step of the hash that masks identities.
pub open spec fn mask_step(hash: u64, byte: u8) -> u64 {
    (hash ^ (byte as u64)).wrapping_mul(MASK_PRIME)
}

/// The hash of some bytes, which stands for an identity while it is masked.
pub open spec fn mask_of(bytes: Seq<u8>) -> u64
    decreases bytes.len(),
{
    if bytes.len() == 0 {
        MASK_OFFSET
    } else {
        mask_step(mask_of(bytes.drop_last()), bytes.last())
    }
}

/// The number that stands for an identity while it is masked.
pub fn stable_mask_id(value: &str) -> (id: u64)
    ensures
        id == mask_of(encode_utf8(value@)),
{
    let bytes = value.as_bytes();
    let mut hash: u64 = MASK_OFFSET;
    let mut i: usize = 0;
    assert(bytes@.take(0) =~= Seq::<u8>::empty());
    while i < bytes.len()
        invariant
            i <= bytes@.len(),
            hash == mask_of(bytes@.take(i as int)),
        decreases bytes@.len() - i,
    {
        assert(bytes@.take(i + 1).drop_last() =~= bytes@.take(i as int));
        hash = (hash ^ (bytes[i] as u64)).wrapping_mul(MASK_PRIME);
        i = i + 1;
    }
    assert(bytes@.take(i as int) =~= bytes@);
    hash
}

/// A number as sixteen hexadecimal digits.
pub open spec fn sixteen_digits(n: u64) -> Seq<char> {
    hex_text(big_endian(n))
}

/// The bytes of a number, the highest first.
pub open spec fn big_endian(n: u64) -> Seq<u8> {
    seq![
        (n / 0x100_0000_0000_0000) as u8,
        (n / 0x1_0000_0000_0000 % 0x100) as u8,
        (n / 0x100_0000_0000 % 0x100) as u8,
        (n / 0x1_0000_0000 % 0x100) as u8,
        (n / 0x100_0000 % 0x100) as u8,
        (n / 0x1_0000 % 0x100) as u8,
        (n / 0x100 % 0x100) as u8,
        (n % 0x100) as u8,
    ]
}

fn format_sixteen_digits(n: u64) -> (text: String)
    ensures
        text@ == sixteen_digits(n),
{
    let mut bytes: Vec<u8> = Vec::new();
    bytes.push((n / 0x100_0000_0000_0000) as u8);
    bytes.push((n / 0x1_0000_0000_0000 % 0x100) as u8);
    bytes.push((n / 0x100_0000_0000 % 0x100) as u8);
    bytes.push((n / 0x1_0000_0000 % 0x100) as u8);
    bytes.push((n / 0x100_0000 % 0x100) as u8);
    bytes.push((n / 0x1_0000 % 0x100) as u8);
    bytes.push((n / 0x100 % 0x100) as u8);
    bytes.push((n % 0x100) as u8);
    assert(bytes@ =~= big_endian(n));
    hex_encode(&bytes)
}

/// How an address is shown: as it is, or as a stable pseudonym.
pub open spec fn shown_ip(ip: IpAddr, privacy: bool) -> Seq<char> {
    if privacy {
        "peer-"@ + sixteen_digits(mask_of(encode_utf8(ip_text(ip))))
    } else {
        ip_text(ip)
    }
}

/// How an address is shown.
pub fn display_ip(ip: IpAddr, privacy: bool) -> (text: String)
    ensures
        text@ == shown_ip(ip, privacy),
{
    let text = format_ip(ip);
    if !privacy {
        return text;
    }
    join("peer-", format_sixteen_digits(stable_mask_id(text.as_str())).as_str())
}

/// How an endpoint is shown: made fit for a terminal, or as a stable pseudonym.
pub open spec fn shown_endpoint(address: Seq<char>, shown: Seq<char>, privacy: bool) -> Seq<char> {
    if privacy {
        "endpoint-"@ + sixteen_digits(mask_of(encode_utf8(address)))
    } else {
        shown
    }
}

/// How an endpoint is shown.
pub fn display_endpoint(address: &str, shown_address: &str, privacy: bool) -> (text: String)
    ensures
        text@ == shown_endpoint(address@, shown_address@, privacy),
{
    if !privacy {
        return owned(shown_address);
    }
    join("endpoint-", format_sixteen_digits(stable_mask_id(address)).as_str())
}

/// How a torrent's name is shown: made fit for a terminal, or masked.
pub open spec fn shown_torrent(shown: Seq<char>, masked: Seq<char>, privacy: bool) -> Seq<char> {
    if !privacy {
        shown
    } else if masked.len() == 0 {
        "Torrent"@
    } else {
        masked
    }
}

/// How a torrent's name is shown.
pub fn display_torrent_name(shown_name: &str, masked_name: &str, privacy: bool) -> (text: String)
    ensures
        text@ == shown_torrent(shown_name@, masked_name@, privacy),
{
    if !privacy {
        return owned(shown_name);
    }
    if masked_name.is_empty() {
        owned("Torrent")
    } else {
        owned(masked_name)
    }
}

/// How a torrent's hash is shown: its start, or not at all.
pub open spec fn shown_hash(hash: Seq<u8>, privacy: bool) -> Seq<char> {
    if privacy {
        "hidden-hash"@
    } else if hex_text(hash).len() <= 12 {
        hex_text(hash)
    } else {
        hex_text(hash).take(12)
    }
}

/// How a torrent's hash is shown.
pub fn short_info_hash(hash: &Vec<u8>, privacy: bool) -> (text: String)
    ensures
        text@ == shown_hash(hash@, privacy),
{
    if privacy {
        return owned("hidden-hash");
    }
    first_chars(hex_encode(hash).as_str(), 12)
}

/// The ending of a noun after a number.
pub fn plural_suffix(count: usize) -> (suffix: &'static str)
    ensures
        suffix@ == if count == 1 {
            ""@
        } else {
            "s"@
        },
{
    if count == 1 {
        ""
    } else {
        "s"
    }
}

/// The arrow behind the header of the sorted column.
pub fn peer_sort_arrow(direction: SortDirection) -> (arrow: &'static str)
    ensures
        arrow@ == match direction {
            SortDirection::Ascending => " ▲"@,
            SortDirection::Descending => " ▼"@,
        },
{
    match direction {
        SortDirection::Ascending => " ▲",
        SortDirection::Descending => " ▼",
    }
}

} // verus!
