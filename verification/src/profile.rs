//! Device profiles: per-generation batch-rate tables and sample intervals.
//!
//! Each hardware generation has three 16-entry tables of legal batch data
//! rates (one per channel; rates are stored in millihertz so that every
//! hardware rate, including fractional ones, is exact) and a matching table
//! of inter-sample intervals in decoder time units.  A zero rate marks an
//! unused table slot.

use vstd::prelude::*;

verus! {

/// Hardware variant a decoder is built for.
#[derive(Clone, Copy, Debug, PartialEq, Eq, Structural)]
pub enum DeviceType {
    Lsm6dsr,
    Lsm6dsrx,
    Asm330lhh,
    Asm330lhhx,
    Ism330dhcx,
    Lsm6dso,
    Lsm6dsox,
    Lsm6dso32,
    Lsm6dso32x,
    Lsm6dsv,
    Lsm6dsv16x,
    Lsm6dsv32x,
}

/// Position of a device variant in the release order; the newer generation
/// starts at `Lsm6dsv`.
pub open spec fn spec_device_code(d: DeviceType) -> u8 {
    match d {
        DeviceType::Lsm6dsr => 0,
        DeviceType::Lsm6dsrx => 1,
        DeviceType::Asm330lhh => 2,
        DeviceType::Asm330lhhx => 3,
        DeviceType::Ism330dhcx => 4,
        DeviceType::Lsm6dso => 5,
        DeviceType::Lsm6dsox => 6,
        DeviceType::Lsm6dso32 => 7,
        DeviceType::Lsm6dso32x => 8,
        DeviceType::Lsm6dsv => 9,
        DeviceType::Lsm6dsv16x => 10,
        DeviceType::Lsm6dsv32x => 11,
    }
}

/// FIFO protocol generation of a device variant: 0 for the legacy header
/// layout with a parity bit, 1 for the newer one.
pub open spec fn spec_fifo_version(d: DeviceType) -> u8 {
    if spec_device_code(d) < 9 {
        0
    } else {
        1
    }
}

impl DeviceType {
    /// Position of this variant in the release order.
    pub fn code(&self) -> (r: u8)
        ensures
            r == spec_device_code(*self),
    {
        match self {
            DeviceType::Lsm6dsr => 0,
            DeviceType::Lsm6dsrx => 1,
            DeviceType::Asm330lhh => 2,
            DeviceType::Asm330lhhx => 3,
            DeviceType::Ism330dhcx => 4,
            DeviceType::Lsm6dso => 5,
            DeviceType::Lsm6dsox => 6,
            DeviceType::Lsm6dso32 => 7,
            DeviceType::Lsm6dso32x => 8,
            DeviceType::Lsm6dsv => 9,
            DeviceType::Lsm6dsv16x => 10,
            DeviceType::Lsm6dsv32x => 11,
        }
    }
}

/// Batch-rate tables of one hardware generation.  Rates are millihertz;
/// `dtime` holds the matching inter-sample interval in decoder time units,
/// and `tag_valid_limit` the largest tag code the generation emits.
pub struct Device {
    pub bdr_acc: [i32; 16],
    pub bdr_gyr: [i32; 16],
    pub bdr_vsens: [i32; 16],
    pub dtime: [u32; 16],
    pub tag_valid_limit: u8,
}

/// Accelerometer batch-rate table (millihertz) of the given generation.
pub open spec fn spec_bdr_acc(ver: u8) -> Seq<i32> {
    if ver == 0 {
        seq![
            0i32, 13000, 26000, 52000, 104000, 208000, 416000, 833000,
            1666000, 3333000, 6666000, 1625, 0, 0, 0, 0,
        ]
    } else {
        seq![
            0i32, 1875, 7500, 15000, 30000, 60000, 120000, 240000,
            480000, 960000, 1920000, 3840000, 7680000, 0, 0, 0,
        ]
    }
}

/// Gyroscope batch-rate table (millihertz) of the given generation.
pub open spec fn spec_bdr_gyr(ver: u8) -> Seq<i32> {
    if ver == 0 {
        seq![
            0i32, 13000, 26000, 52000, 104000, 208000, 416000, 833000,
            1666000, 3333000, 6666000, 0, 0, 0, 0, 0,
        ]
    } else {
        seq![
            0i32, 1875, 7500, 15000, 30000, 60000, 120000, 240000,
            480000, 960000, 1920000, 3840000, 7680000, 0, 0, 0,
        ]
    }
}

/// Virtual-sensor batch-rate table (millihertz) of the given generation.
pub open spec fn spec_bdr_vsens(ver: u8) -> Seq<i32> {
    if ver == 0 {
        seq![
            0i32, 13000, 26000, 52000, 104000, 208000, 416000, 0,
            0, 0, 0, 1625, 0, 0, 0, 0,
        ]
    } else {
        seq![
            0i32, 1875, 7500, 15000, 30000, 60000, 120000, 240000,
            480000, 960000, 0, 0, 0, 0, 0, 0,
        ]
    }
}

/// Inter-sample interval table (decoder time units) of the given generation.
pub open spec fn spec_dtime(ver: u8) -> Seq<u32> {
    if ver == 0 {
        seq![
            0u32, 3072, 1536, 768, 384, 192, 96, 48, 24, 12, 6, 24576, 0, 0, 0, 0,
        ]
    } else {
        seq![
            0u32, 24576, 6144, 3072, 1536, 768, 384, 192, 96, 48, 24, 12, 6, 0, 0, 0,
        ]
    }
}

/// Largest tag code the given generation emits.
pub open spec fn spec_tag_valid_limit(ver: u8) -> u8 {
    if ver == 0 {
        0x19
    } else {
        0x1E
    }
}

/// Every interval in a generation's table fits well below `u32` arithmetic
/// limits; the decoder's overflow reasoning leans on this bound.
pub open spec fn spec_dtime_bound() -> u32 {
    24576
}

impl Device {
    /// Profile of the given FIFO protocol generation (0 or 1; any other
    /// value is treated as the newer generation, matching how the decoder
    /// derives the version flag).
    pub fn profile(ver: u8) -> (d: Device)
        ensures
            d.bdr_acc@ == spec_bdr_acc(ver),
            d.bdr_gyr@ == spec_bdr_gyr(ver),
            d.bdr_vsens@ == spec_bdr_vsens(ver),
            d.dtime@ == spec_dtime(ver),
            d.tag_valid_limit == spec_tag_valid_limit(ver),
    {
        if ver == 0 {
            let d = Device {
                bdr_acc: [
                    0i32, 13000, 26000, 52000, 104000, 208000, 416000, 833000,
                    1666000, 3333000, 6666000, 1625, 0, 0, 0, 0,
                ],
                bdr_gyr: [
                    0i32, 13000, 26000, 52000, 104000, 208000, 416000, 833000,
                    1666000, 3333000, 6666000, 0, 0, 0, 0, 0,
                ],
                bdr_vsens: [
                    0i32, 13000, 26000, 52000, 104000, 208000, 416000, 0,
                    0, 0, 0, 1625, 0, 0, 0, 0,
                ],
                dtime: [
                    0u32, 3072, 1536, 768, 384, 192, 96, 48, 24, 12, 6, 24576, 0, 0, 0, 0,
                ],
                tag_valid_limit: 0x19,
            };
            proof {
                assert(d.bdr_acc@ =~= spec_bdr_acc(ver));
                assert(d.bdr_gyr@ =~= spec_bdr_gyr(ver));
                assert(d.bdr_vsens@ =~= spec_bdr_vsens(ver));
                assert(d.dtime@ =~= spec_dtime(ver));
            }
            d
        } else {
            let d = Device {
                bdr_acc: [
                    0i32, 1875, 7500, 15000, 30000, 60000, 120000, 240000,
                    480000, 960000, 1920000, 3840000, 7680000, 0, 0, 0,
                ],
                bdr_gyr: [
                    0i32, 1875, 7500, 15000, 30000, 60000, 120000, 240000,
                    480000, 960000, 1920000, 3840000, 7680000, 0, 0, 0,
                ],
                bdr_vsens: [
                    0i32, 1875, 7500, 15000, 30000, 60000, 120000, 240000,
                    480000, 960000, 0, 0, 0, 0, 0, 0,
                ],
                dtime: [
                    0u32, 24576, 6144, 3072, 1536, 768, 384, 192, 96, 48, 24, 12, 6, 0, 0, 0,
                ],
                tag_valid_limit: 0x1E,
            };
            proof {
                assert(d.bdr_acc@ =~= spec_bdr_acc(ver));
                assert(d.bdr_gyr@ =~= spec_bdr_gyr(ver));
                assert(d.bdr_vsens@ =~= spec_bdr_vsens(ver));
                assert(d.dtime@ =~= spec_dtime(ver));
            }
            d
        }
    }
}

/// Every entry of a generation's interval table is at most
/// `spec_dtime_bound()`.
pub proof fn lemma_dtime_bounded(ver: u8, i: int)
    requires
        0 <= i < 16,
    ensures
        spec_dtime(ver)[i] <= spec_dtime_bound(),
{
}

/// Absolute difference between a table rate and a requested rate.
pub open spec fn spec_abs_diff(a: i32, n: i32) -> int {
    if a >= n {
        a - n
    } else {
        n - a
    }
}

/// Index of the table entry nearest the requested rate among the first `n`
/// entries; on ties the lowest index wins, mirroring how the hardware
/// quantizes a requested rate.
pub open spec fn spec_resolve_upto(table: Seq<i32>, requested: i32, n: int) -> int
    decreases n,
{
    if n <= 1 {
        0
    } else {
        let best = spec_resolve_upto(table, requested, n - 1);
        if spec_abs_diff(table[n - 1], requested) < spec_abs_diff(table[best], requested) {
            n - 1
        } else {
            best
        }
    }
}

/// Index of the table entry nearest the requested rate.
pub open spec fn spec_resolve(table: Seq<i32>, requested: i32) -> int {
    spec_resolve_upto(table, requested, 16)
}

/// The resolved index is in range, achieves the minimum absolute difference
/// over the first `n` entries, and is the lowest index that does.
proof fn lemma_resolve_upto_minimal(table: Seq<i32>, requested: i32, n: int)
    requires
        1 <= n <= table.len(),
    ensures
        0 <= spec_resolve_upto(table, requested, n) < n,
        forall|j: int|
            0 <= j < n ==> spec_abs_diff(table[spec_resolve_upto(table, requested, n)], requested)
                <= #[trigger] spec_abs_diff(table[j], requested),
        forall|j: int|
            0 <= j < spec_resolve_upto(table, requested, n) ==> spec_abs_diff(
                table[spec_resolve_upto(table, requested, n)],
                requested,
            ) < #[trigger] spec_abs_diff(table[j], requested),
    decreases n,
{
    if n > 1 {
        lemma_resolve_upto_minimal(table, requested, n - 1);
    }
}

/// For every requested rate and 16-entry table, the resolver picks the
/// lowest index among those achieving the minimum absolute difference.
pub proof fn lemma_resolve_minimal(table: Seq<i32>, requested: i32)
    requires
        table.len() == 16,
    ensures
        0 <= spec_resolve(table, requested) < 16,
        forall|j: int|
            0 <= j < 16 ==> spec_abs_diff(table[spec_resolve(table, requested)], requested)
                <= #[trigger] spec_abs_diff(table[j], requested),
        forall|j: int|
            0 <= j < spec_resolve(table, requested) ==> spec_abs_diff(
                table[spec_resolve(table, requested)],
                requested,
            ) < #[trigger] spec_abs_diff(table[j], requested),
{
    lemma_resolve_upto_minimal(table, requested, 16);
}

/// Whatever rate is requested, resolving it against a generation's rate
/// tables lands inside the 16-entry interval table, and the interval
/// found there respects the global interval bound.
pub proof fn lemma_resolve_bounds(ver: u8)
    ensures
        forall|req: i32| 0 <= #[trigger] spec_resolve(spec_bdr_acc(ver), req) < 16,
        forall|req: i32| 0 <= #[trigger] spec_resolve(spec_bdr_gyr(ver), req) < 16,
        forall|req: i32|
            spec_dtime(ver)[#[trigger] spec_resolve(spec_bdr_acc(ver), req)]
                <= spec_dtime_bound(),
        forall|req: i32|
            spec_dtime(ver)[#[trigger] spec_resolve(spec_bdr_gyr(ver), req)]
                <= spec_dtime_bound(),
{
    assert forall|req: i32| 0 <= #[trigger] spec_resolve(spec_bdr_acc(ver), req) < 16 by {
        lemma_resolve_upto_minimal(spec_bdr_acc(ver), req, 16);
    }
    assert forall|req: i32| 0 <= #[trigger] spec_resolve(spec_bdr_gyr(ver), req) < 16 by {
        lemma_resolve_upto_minimal(spec_bdr_gyr(ver), req, 16);
    }
    assert forall|req: i32|
        spec_dtime(ver)[#[trigger] spec_resolve(spec_bdr_acc(ver), req)]
            <= spec_dtime_bound() by {
        lemma_resolve_upto_minimal(spec_bdr_acc(ver), req, 16);
        lemma_dtime_bounded(ver, spec_resolve(spec_bdr_acc(ver), req));
    }
    assert forall|req: i32|
        spec_dtime(ver)[#[trigger] spec_resolve(spec_bdr_gyr(ver), req)]
            <= spec_dtime_bound() by {
        lemma_resolve_upto_minimal(spec_bdr_gyr(ver), req, 16);
        lemma_dtime_bounded(ver, spec_resolve(spec_bdr_gyr(ver), req));
    }
}

/// Index of the table entry nearest the requested rate (millihertz); on a
/// tie the lower index, hence the lower rate, wins.
pub fn bdr_get_index(bdr: &[i32; 16], n: i32) -> (idx: usize)
    ensures
        idx == spec_resolve(bdr@, n),
        idx < 16,
{
    let mut idx: usize = 0;
    let mut best: i64 = if bdr[0] >= n {
        bdr[0] as i64 - n as i64
    } else {
        n as i64 - bdr[0] as i64
    };
    let mut i: usize = 1;
    while i < 16
        invariant
            1 <= i <= 16,
            idx == spec_resolve_upto(bdr@, n, i as int),
            0 <= idx < i,
            best == spec_abs_diff(bdr@[idx as int], n),
        decreases 16 - i,
    {
        let diff: i64 = if bdr[i] >= n {
            bdr[i] as i64 - n as i64
        } else {
            n as i64 - bdr[i] as i64
        };
        if diff < best {
            best = diff;
            idx = i;
        }
        i = i + 1;
    }
    idx
}

} // verus!
