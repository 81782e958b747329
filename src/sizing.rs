//! Capacity bucketing and the memory-type table.
use vstd::prelude::*;
use vstd::arithmetic::div_mod::lemma_div_denominator;

verus! {

/// Bytes in one gigabyte, as the reports count it (1024 cubed).
pub const GIB: u64 = 1073741824;

/// The canonical disk sizes, in gigabytes, in ascending order.
pub open spec fn canonical_sizes() -> Seq<u64> {
    seq![120u64, 240, 500, 1000, 2000, 4000]
}

/// Absolute difference of two integers.
pub open spec fn dist(a: int, b: int) -> int {
    if a >= b {
        a - b
    } else {
        b - a
    }
}

/// `n` is one of the canonical sizes.
pub open spec fn is_canonical_size(n: int) -> bool {
    exists|i: int| 0 <= i < 6 && canonical_sizes()[i] == n
}

/// `r` is the canonical size nearest to `gb`; among sizes at the same
/// distance it is the smallest.
pub open spec fn is_nearest_size(gb: int, r: int) -> bool {
    &&& is_canonical_size(r)
    &&& forall|j: int| 0 <= j < 6 ==> dist(gb, r) <= dist(gb, canonical_sizes()[j] as int)
    &&& forall|j: int|
        0 <= j < 6 && canonical_sizes()[j] < r ==> dist(gb, r) < dist(gb, canonical_sizes()[j] as int)
}

/// The canonical size nearest to `gb` gigabytes, ties going to the smaller.
pub open spec fn nearest_size(gb: int) -> int {
    if gb <= 180 {
        120
    } else if gb <= 370 {
        240
    } else if gb <= 750 {
        500
    } else if gb <= 1500 {
        1000
    } else if gb <= 3000 {
        2000
    } else {
        4000
    }
}

/// The closed form above is the nearest canonical size.
pub proof fn lemma_nearest_size(gb: int)
    requires
        gb >= 0,
    ensures
        is_nearest_size(gb, nearest_size(gb)),
{
    let r = nearest_size(gb);
    if r == 120 {
        assert(canonical_sizes()[0] == r);
    } else if r == 240 {
        assert(canonical_sizes()[1] == r);
    } else if r == 500 {
        assert(canonical_sizes()[2] == r);
    } else if r == 1000 {
        assert(canonical_sizes()[3] == r);
    } else if r == 2000 {
        assert(canonical_sizes()[4] == r);
    } else {
        assert(canonical_sizes()[5] == r);
    }
}

/// Only one canonical size is the nearest one.
pub proof fn lemma_nearest_unique(gb: int, a: int, b: int)
    requires
        is_nearest_size(gb, a),
        is_nearest_size(gb, b),
    ensures
        a == b,
{
    let i = choose|i: int| 0 <= i < 6 && canonical_sizes()[i] == a;
    let k = choose|k: int| 0 <= k < 6 && canonical_sizes()[k] == b;
    assert(dist(gb, a) <= dist(gb, canonical_sizes()[k] as int));
    assert(dist(gb, b) <= dist(gb, canonical_sizes()[i] as int));
}

/// Gigabytes in `bytes`, by integer division by 1024 three times.
pub open spec fn gib_of(bytes: u64) -> int {
    bytes as int / GIB as int
}

/// Rounds a raw byte count to the nearest canonical disk size in gigabytes.
/// Every input gives a canonical size, however far it lies from all of them.
pub fn rounding(bytes: u64) -> (r: u64)
    ensures
        is_nearest_size(gib_of(bytes), r as int),
        r as int == nearest_size(gib_of(bytes)),
{
    let d: u64 = bytes / 1024 / 1024 / 1024;
    proof {
        let x = bytes as int;
        lemma_div_denominator(x, 1024, 1024);
        lemma_div_denominator(x, 1048576int, 1024);
    }
    let v: [u64; 6] = [120, 240, 500, 1000, 2000, 4000];
    assert(v@ == canonical_sizes());
    let mut closest: u64 = v[0];
    let mut min_diff: u64 = if d >= 120 { d - 120 } else { 120 - d };
    let mut i: usize = 1;
    while i < 6
        invariant
            1 <= i <= 6,
            v@ == canonical_sizes(),
            d as int == gib_of(bytes),
            min_diff as int == dist(d as int, closest as int),
            exists|k: int| 0 <= k < i && canonical_sizes()[k] == closest,
            forall|j: int| 0 <= j < i ==> min_diff as int <= dist(d as int, canonical_sizes()[j] as int),
            forall|j: int|
                0 <= j < i && canonical_sizes()[j] < closest ==> (min_diff as int) < dist(d as int, canonical_sizes()[j] as int),
        decreases 6 - i,
    {
        let n: u64 = v[i];
        let diff: u64 = if d >= n { d - n } else { n - d };
        if diff < min_diff {
            min_diff = diff;
            closest = n;
        }
        i = i + 1;
    }
    proof {
        lemma_nearest_size(d as int);
        lemma_nearest_unique(d as int, closest as int, nearest_size(d as int));
    }
    closest
}

/// The name of a memory-type code of the management layer; "Unknown"
/// for every code outside the table.
pub open spec fn memory_type_name(code: u32) -> Seq<char> {
    if code == 20 {
        "DDR"@
    } else if code == 21 {
        "DDR2"@
    } else if code == 22 {
        "DDR2 FB-DIMM"@
    } else if code == 23 || code == 24 {
        "DDR3"@
    } else if code == 25 {
        "FBD2"@
    } else if code == 26 {
        "DDR4"@
    } else {
        "Unknown"@
    }
}

/// Looks up the name of a memory-type code.
pub fn get_memory_type(code: u32) -> (r: &'static str)
    ensures
        r@ == memory_type_name(code),
{
    match code {
        20 => "DDR",
        21 => "DDR2",
        22 => "DDR2 FB-DIMM",
        23 => "DDR3",
        24 => "DDR3",
        25 => "FBD2",
        26 => "DDR4",
        _ => "Unknown",
    }
}

} // verus!
