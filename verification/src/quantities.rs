//! The units in which large quantities are written.
use vstd::prelude::*;

verus! {

/// A unit, and how much one of it is.
#[derive(Clone, Copy, Debug, PartialEq, Eq)]
pub struct Unit {
    pub size: u64,
    pub name: &'static str,
}

/// The sizes of the units of a count, each a thousand times the one before it.
pub open spec fn count_sizes() -> Seq<u64> {
    seq![
        1_000,
        1_000_000,
        1_000_000_000,
        1_000_000_000_000,
        1_000_000_000_000_000,
        1_000_000_000_000_000_000,
    ]
}

pub open spec fn count_names() -> Seq<Seq<char>> {
    seq!["K"@, "M"@, "G"@, "T"@, "P"@, "E"@]
}

/// The sizes of the units of bytes, each 1024 times the one before it.
pub open spec fn byte_sizes() -> Seq<u64> {
    seq![
        0x400,
        0x10_0000,
        0x4000_0000,
        0x100_0000_0000,
        0x4_0000_0000_0000,
        0x1000_0000_0000_0000,
    ]
}

pub open spec fn byte_names() -> Seq<Seq<char>> {
    seq!["KB"@, "MB"@, "GB"@, "TB"@, "PB"@, "EB"@]
}

/// How many of some rising sizes a value reaches.
pub open spec fn sizes_reached(value: u64, sizes: Seq<u64>) -> int
    decreases sizes.len(),
{
    if sizes.len() == 0 {
        0
    } else if value >= sizes.last() {
        sizes.len() as int
    } else {
        sizes_reached(value, sizes.drop_last())
    }
}

/// Whether a unit is the largest one that a value reaches.
pub open spec fn is_largest_unit(
    unit: Option<Unit>,
    value: u64,
    sizes: Seq<u64>,
    names: Seq<Seq<char>>,
) -> bool {
    let reached = sizes_reached(value, sizes);
    match unit {
        Some(unit) => reached > 0 && unit.size == sizes[reached - 1] && unit.name@ == names[reached
            - 1],
        None => reached == 0,
    }
}

fn largest_unit(value: u64, units: [Unit; 6]) -> (unit: Option<Unit>)
    ensures
        is_largest_unit(
            unit,
            value,
            units@.map_values(|unit: Unit| unit.size),
            units@.map_values(|unit: Unit| unit.name@),
        ),
{
    let ghost sizes = units@.map_values(|unit: Unit| unit.size);
    let mut k: usize = 6;
    assert(sizes.take(6) =~= sizes);
    while k > 0
        invariant
            k <= 6,
            units@.len() == 6,
            sizes == units@.map_values(|unit: Unit| unit.size),
            sizes_reached(value, sizes.take(k as int)) == sizes_reached(value, sizes),
        decreases k,
    {
        assert(sizes.take(k as int).drop_last() =~= sizes.take(k - 1));
        assert(sizes.take(k as int).last() == units@[k - 1].size);
        if value >= units[k - 1].size {
            return Some(units[k - 1]);
        }
        k = k - 1;
    }
    None
}

/// The unit in which a count is written: the largest that it reaches.
pub fn count_unit(value: u64) -> (unit: Option<Unit>)
    ensures
        is_largest_unit(unit, value, count_sizes(), count_names()),
{
    let units = [
        Unit { size: 1_000, name: "K" },
        Unit { size: 1_000_000, name: "M" },
        Unit { size: 1_000_000_000, name: "G" },
        Unit { size: 1_000_000_000_000, name: "T" },
        Unit { size: 1_000_000_000_000_000, name: "P" },
        Unit { size: 1_000_000_000_000_000_000, name: "E" },
    ];
    assert(units@.map_values(|unit: Unit| unit.size) =~= count_sizes());
    assert(units@.map_values(|unit: Unit| unit.name@) =~= count_names());
    largest_unit(value, units)
}

/// The unit in which a number of bytes is written: the largest that it reaches.
pub fn byte_unit(bytes: u64) -> (unit: Option<Unit>)
    ensures
        is_largest_unit(unit, bytes, byte_sizes(), byte_names()),
{
    let units = [
        Unit { size: 0x400, name: "KB" },
        Unit { size: 0x10_0000, name: "MB" },
        Unit { size: 0x4000_0000, name: "GB" },
        Unit { size: 0x100_0000_0000, name: "TB" },
        Unit { size: 0x4_0000_0000_0000, name: "PB" },
        Unit { size: 0x1000_0000_0000_0000, name: "EB" },
    ];
    assert(units@.map_values(|unit: Unit| unit.size) =~= byte_sizes());
    assert(units@.map_values(|unit: Unit| unit.name@) =~= byte_names());
    largest_unit(bytes, units)
}

} // verus!
