//! Mathematical model of the decoder.
//!
//! `spec_step` says exactly what processing one 7-byte slot does to the
//! decoder state and which samples it emits; `spec_run` folds it over a
//! whole input buffer, stopping at the first error and charging emitted
//! samples against the caller's output capacity.  The decode operation's
//! contract is stated against these functions.

use vstd::prelude::*;

use crate::Status;
use crate::profile::{
    spec_bdr_acc, spec_bdr_gyr, spec_bdr_vsens, spec_dtime, spec_dtime_bound, spec_resolve,
    spec_tag_valid_limit,
};
use crate::sensor_data::spec_axis_triple;
use crate::tags::{
    CompressionType, SensorType, Tag, spec_compression_type, spec_sensor_type, spec_tag_of_code,
};

verus! {

/// Decoder state as the contracts see it.
#[verifier::ext_equal]
pub ghost struct DecoderModel {
    /// FIFO protocol generation: 0 legacy (parity bit), 1 newer.
    pub fifo_ver: u8,
    /// Last seen 2-bit rolling counter.
    pub tag_counter_old: u8,
    /// Current accelerometer inter-sample interval.
    pub dtime_xl: u32,
    /// Current gyroscope inter-sample interval.
    pub dtime_gy: u32,
    /// Minimum interval among active channels; drives the running clock.
    pub dtime_min: u32,
    /// Accelerometer interval in effect before the last rate change.
    pub dtime_xl_old: u32,
    /// Gyroscope interval in effect before the last rate change.
    pub dtime_gy_old: u32,
    /// Running clock in decoder time units; wraps at 32 bits.
    pub timestamp: u32,
    /// Timestamp of the last accelerometer sample.
    pub last_timestamp_xl: u32,
    /// Timestamp of the last gyroscope sample.
    pub last_timestamp_gy: u32,
    /// Accelerometer rate changed and no uncompressed sample seen since.
    pub bdr_chg_xl: bool,
    /// Gyroscope rate changed and no uncompressed sample seen since.
    pub bdr_chg_gy: bool,
    /// Last decoded accelerometer axes, base for delta decoding.
    pub last_data_xl: Seq<i16>,
    /// Last decoded gyroscope axes, base for delta decoding.
    pub last_data_gy: Seq<i16>,
}

/// One decoded sample as the contracts see it.
#[verifier::ext_equal]
pub ghost struct SampleModel {
    pub timestamp: u32,
    pub sensor_tag: SensorType,
    pub data: Seq<i16>,
}

/// What processing one slot yields: an error, or a successor state plus
/// zero to three samples.
pub ghost enum StepModel {
    Fail(Status),
    Emit(DecoderModel, Seq<SampleModel>),
}

/// What a whole decode call yields.
#[verifier::ext_equal]
pub ghost struct RunModel {
    pub status: Status,
    pub state: DecoderModel,
    pub outs: Seq<SampleModel>,
}

/// Well-formedness the decoder maintains across calls: a known protocol
/// generation, a 2-bit counter, intervals drawn from the profile tables,
/// and three axes per channel.
pub open spec fn spec_wf(s: DecoderModel) -> bool {
    &&& s.fifo_ver <= 1
    &&& s.tag_counter_old <= 3
    &&& s.dtime_xl <= spec_dtime_bound()
    &&& s.dtime_gy <= spec_dtime_bound()
    &&& s.dtime_min <= spec_dtime_bound()
    &&& s.dtime_xl_old <= spec_dtime_bound()
    &&& s.dtime_gy_old <= spec_dtime_bound()
    &&& s.last_data_xl.len() == 3
    &&& s.last_data_gy.len() == 3
}

/// 32-bit wrapping addition.
pub open spec fn w_add(a: u32, b: u32) -> u32 {
    if a + b > u32::MAX {
        (a + b - 0x1_0000_0000) as u32
    } else {
        (a + b) as u32
    }
}

/// 32-bit wrapping subtraction.
pub open spec fn w_sub(a: u32, b: u32) -> u32 {
    if a - b < 0 {
        (a - b + 0x1_0000_0000) as u32
    } else {
        (a - b) as u32
    }
}

/// 32-bit wrapping multiplication.
pub open spec fn w_mul(a: u32, b: u32) -> u32 {
    ((a as nat * b as nat) % 0x1_0000_0000nat) as u32
}

/// 16-bit signed wrapping addition.
pub open spec fn w_add16(a: i16, b: i16) -> i16 {
    if a + b > i16::MAX {
        (a + b - 0x1_0000) as i16
    } else if a + b < i16::MIN {
        (a + b + 0x1_0000) as i16
    } else {
        (a + b) as i16
    }
}

/// 5-bit tag field of a slot header byte.
pub open spec fn spec_slot_tag(b0: u8) -> u8 {
    (b0 & 0xF8) >> 3
}

/// 2-bit rolling counter field of a slot header byte.
pub open spec fn spec_slot_counter(b0: u8) -> u8 {
    (b0 & 0x06) >> 1
}

/// Number of set bits in a byte.
pub open spec fn spec_ones(x: u8) -> int {
    (x & 1) + ((x >> 1) & 1) + ((x >> 2) & 1) + ((x >> 3) & 1) + ((x >> 4) & 1) + ((x >> 5) & 1)
        + ((x >> 6) & 1) + ((x >> 7) & 1)
}

/// A byte has even bit-parity.  On the legacy protocol only even-parity
/// headers are accepted; odd parity signals corruption.
pub open spec fn spec_even_parity(x: u8) -> bool {
    spec_ones(x) % 2 == 0
}

/// 32-bit little-endian value of four bytes.
pub open spec fn spec_le32(b0: u8, b1: u8, b2: u8, b3: u8) -> u32 {
    (b0 + b1 * 0x100 + b2 * 0x1_0000 + b3 * 0x100_0000) as u32
}

/// 16-bit little-endian value of two bytes.
pub open spec fn spec_le16(lo: u8, hi: u8) -> u16 {
    (lo + hi * 0x100) as u16
}

/// A payload byte as a signed delta in -128..=127.
pub open spec fn spec_sbyte(b: u8) -> i16 {
    if b < 128 {
        b as i16
    } else {
        (b - 256) as i16
    }
}

/// The six signed-byte deltas of a Delta-2-sample payload.
pub open spec fn spec_diff2x(p: Seq<u8>) -> Seq<i16>
    recommends
        p.len() >= 6,
{
    seq![
        spec_sbyte(p[0]),
        spec_sbyte(p[1]),
        spec_sbyte(p[2]),
        spec_sbyte(p[3]),
        spec_sbyte(p[4]),
        spec_sbyte(p[5]),
    ]
}

/// 5-bit field `j` (0, 1 or 2) of a packed delta word, sign-extended.
pub open spec fn spec_field5(w: u16, j: int) -> i16 {
    let u = if j == 0 {
        w & 0x1F
    } else if j == 1 {
        (w >> 5) & 0x1F
    } else {
        (w >> 10) & 0x1F
    };
    if u < 16 {
        u as i16
    } else {
        (u - 32) as i16
    }
}

/// The nine packed 5-bit deltas of a Delta-3-sample payload: three
/// little-endian words of three sign-extended fields each.
pub open spec fn spec_diff3x(p: Seq<u8>) -> Seq<i16>
    recommends
        p.len() >= 6,
{
    let w0 = spec_le16(p[0], p[1]);
    let w1 = spec_le16(p[2], p[3]);
    let w2 = spec_le16(p[4], p[5]);
    seq![
        spec_field5(w0, 0),
        spec_field5(w0, 1),
        spec_field5(w0, 2),
        spec_field5(w1, 0),
        spec_field5(w1, 1),
        spec_field5(w1, 2),
        spec_field5(w2, 0),
        spec_field5(w2, 1),
        spec_field5(w2, 2),
    ]
}

/// The six payload bytes of a slot.
pub open spec fn spec_slot_payload(b: Seq<u8>) -> Seq<u8>
    recommends
        b.len() == 7,
{
    b.subrange(1, 7)
}

/// Wrapped forward distance between two 2-bit rolling counters.
pub open spec fn spec_ctr_diff(c2: u8, old_c: u8) -> int {
    if c2 < old_c {
        c2 + 4 - old_c
    } else {
        c2 - old_c
    }
}

/// Advance the running clock by the counter distance times the minimum
/// interval, when the rolling counter moved and a rate is active.
pub open spec fn spec_counter_advance(s: DecoderModel, c2: u8) -> DecoderModel {
    if c2 != s.tag_counter_old && s.dtime_min != 0 {
        let d = spec_ctr_diff(c2, s.tag_counter_old) as u32;
        DecoderModel { timestamp: w_add(s.timestamp, w_mul(s.dtime_min, d)), ..s }
    } else {
        s
    }
}

/// The larger of two rates.
pub open spec fn spec_max_rate(a: i32, b: i32) -> i32 {
    if a > b {
        a
    } else {
        b
    }
}

/// Effect of a rate-change record: re-resolve all intervals from the
/// newly selected rates, stash the old per-channel intervals, and raise
/// both rate-changed flags.  No sample is emitted.
pub open spec fn spec_apply_rate_change(s: DecoderModel, b: Seq<u8>) -> DecoderModel
    recommends
        b.len() == 7,
{
    let acc_cfg = b[6] & 0x0F;
    let gyr_cfg = (b[6] & 0xF0) >> 4;
    let vsens_cfg = b[4] & 0x0F;
    let bdr_xl = spec_bdr_acc(s.fifo_ver)[acc_cfg as int];
    let bdr_gy = spec_bdr_gyr(s.fifo_ver)[gyr_cfg as int];
    let bdr_vs = spec_bdr_vsens(s.fifo_ver)[vsens_cfg as int];
    let bdr_max = spec_max_rate(spec_max_rate(bdr_xl, bdr_gy), bdr_vs);
    DecoderModel {
        dtime_xl_old: s.dtime_xl,
        dtime_gy_old: s.dtime_gy,
        dtime_min: spec_dtime(s.fifo_ver)[spec_resolve(spec_bdr_acc(s.fifo_ver), bdr_max)],
        dtime_xl: spec_dtime(s.fifo_ver)[spec_resolve(spec_bdr_acc(s.fifo_ver), bdr_xl)],
        dtime_gy: spec_dtime(s.fifo_ver)[spec_resolve(spec_bdr_gyr(s.fifo_ver), bdr_gy)],
        bdr_chg_xl: true,
        bdr_chg_gy: true,
        ..s
    }
}

/// Effect of an uncompressed record at the running clock.  Step-counter
/// and machine-learning-core results carry their own 4-byte timestamp and
/// use it instead of the clock.  A real accelerometer or gyroscope sample
/// refreshes that channel's delta base and clears its rate-changed flag.
pub open spec fn spec_decode_nc(s: DecoderModel, t: Tag, b: Seq<u8>) -> (DecoderModel, Seq<
    SampleModel,
>)
    recommends
        b.len() == 7,
{
    let st = spec_sensor_type(t);
    let ts = if t == Tag::StepCounter || t == Tag::MlcResult {
        spec_le32(b[3], b[4], b[5], b[6])
    } else {
        s.timestamp
    };
    let data = spec_axis_triple(spec_slot_payload(b));
    let smp = SampleModel { timestamp: ts, sensor_tag: st, data };
    let s2 = if st == SensorType::Accelerometer {
        DecoderModel {
            last_data_xl: data,
            last_timestamp_xl: s.timestamp,
            bdr_chg_xl: false,
            ..s
        }
    } else if st == SensorType::Gyroscope {
        DecoderModel {
            last_data_gy: data,
            last_timestamp_gy: s.timestamp,
            bdr_chg_gy: false,
            ..s
        }
    } else {
        s
    };
    (s2, seq![smp])
}

/// Effect of an uncompressed record one or two intervals in the past.
/// Right after a rate change the sample is back-dated from the channel's
/// last timestamp using the interval in effect before the change; the
/// rate-changed flag itself is left standing until the next record at the
/// running clock.
pub open spec fn spec_decode_nct(s: DecoderModel, t: Tag, b: Seq<u8>, two: bool) -> (DecoderModel,
    Seq<SampleModel>)
    recommends
        b.len() == 7,
        spec_sensor_type(t) == SensorType::Accelerometer || spec_sensor_type(t)
            == SensorType::Gyroscope,
{
    let st = spec_sensor_type(t);
    let data = spec_axis_triple(spec_slot_payload(b));
    if st == SensorType::Accelerometer {
        let lt = if s.bdr_chg_xl {
            w_add(s.last_timestamp_xl, s.dtime_xl_old)
        } else if two {
            w_sub(s.timestamp, w_mul(s.dtime_xl, 2))
        } else {
            w_sub(s.timestamp, s.dtime_xl)
        };
        (
            DecoderModel { last_data_xl: data, last_timestamp_xl: lt, ..s },
            seq![SampleModel { timestamp: lt, sensor_tag: st, data }],
        )
    } else {
        let lt = if s.bdr_chg_gy {
            w_add(s.last_timestamp_gy, s.dtime_gy_old)
        } else if two {
            w_sub(s.timestamp, w_mul(s.dtime_gy, 2))
        } else {
            w_sub(s.timestamp, s.dtime_gy)
        };
        (
            DecoderModel { last_data_gy: data, last_timestamp_gy: lt, ..s },
            seq![SampleModel { timestamp: lt, sensor_tag: st, data }],
        )
    }
}

/// One axis triple advanced by three chained deltas.
pub open spec fn spec_apply_diff(base: Seq<i16>, d: Seq<i16>, k: int) -> Seq<i16>
    recommends
        base.len() == 3,
        d.len() >= k + 3,
{
    seq![w_add16(base[0], d[k]), w_add16(base[1], d[k + 1]), w_add16(base[2], d[k + 2])]
}

/// Effect of a Delta-2-sample record: two samples whose deltas chain off
/// the channel's last sample, dated two intervals and one interval before
/// the running clock.  Only the second refreshes the channel's last
/// timestamp.
pub open spec fn spec_decode_c2(s: DecoderModel, t: Tag, b: Seq<u8>) -> (DecoderModel, Seq<
    SampleModel,
>)
    recommends
        b.len() == 7,
        spec_sensor_type(t) == SensorType::Accelerometer || spec_sensor_type(t)
            == SensorType::Gyroscope,
{
    let st = spec_sensor_type(t);
    let diff = spec_diff2x(spec_slot_payload(b));
    if st == SensorType::Accelerometer {
        let d1 = spec_apply_diff(s.last_data_xl, diff, 0);
        let ts1 = w_sub(s.timestamp, w_mul(s.dtime_xl, 2));
        let d2 = spec_apply_diff(d1, diff, 3);
        let ts2 = w_sub(s.timestamp, s.dtime_xl);
        (
            DecoderModel { last_data_xl: d2, last_timestamp_xl: ts2, ..s },
            seq![
                SampleModel { timestamp: ts1, sensor_tag: st, data: d1 },
                SampleModel { timestamp: ts2, sensor_tag: st, data: d2 },
            ],
        )
    } else {
        let d1 = spec_apply_diff(s.last_data_gy, diff, 0);
        let ts1 = w_sub(s.timestamp, w_mul(s.dtime_gy, 2));
        let d2 = spec_apply_diff(d1, diff, 3);
        let ts2 = w_sub(s.timestamp, s.dtime_gy);
        (
            DecoderModel { last_data_gy: d2, last_timestamp_gy: ts2, ..s },
            seq![
                SampleModel { timestamp: ts1, sensor_tag: st, data: d1 },
                SampleModel { timestamp: ts2, sensor_tag: st, data: d2 },
            ],
        )
    }
}

/// Effect of a Delta-3-sample record: three samples whose packed 5-bit
/// deltas chain within the slot, dated two intervals before, one interval
/// before, and at the running clock.
pub open spec fn spec_decode_c3(s: DecoderModel, t: Tag, b: Seq<u8>) -> (DecoderModel, Seq<
    SampleModel,
>)
    recommends
        b.len() == 7,
        spec_sensor_type(t) == SensorType::Accelerometer || spec_sensor_type(t)
            == SensorType::Gyroscope,
{
    let st = spec_sensor_type(t);
    let diff = spec_diff3x(spec_slot_payload(b));
    if st == SensorType::Accelerometer {
        let d1 = spec_apply_diff(s.last_data_xl, diff, 0);
        let ts1 = w_sub(s.timestamp, w_mul(s.dtime_xl, 2));
        let d2 = spec_apply_diff(d1, diff, 3);
        let ts2 = w_sub(s.timestamp, s.dtime_xl);
        let d3 = spec_apply_diff(d2, diff, 6);
        (
            DecoderModel { last_data_xl: d3, last_timestamp_xl: s.timestamp, ..s },
            seq![
                SampleModel { timestamp: ts1, sensor_tag: st, data: d1 },
                SampleModel { timestamp: ts2, sensor_tag: st, data: d2 },
                SampleModel { timestamp: s.timestamp, sensor_tag: st, data: d3 },
            ],
        )
    } else {
        let d1 = spec_apply_diff(s.last_data_gy, diff, 0);
        let ts1 = w_sub(s.timestamp, w_mul(s.dtime_gy, 2));
        let d2 = spec_apply_diff(d1, diff, 3);
        let ts2 = w_sub(s.timestamp, s.dtime_gy);
        let d3 = spec_apply_diff(d2, diff, 6);
        (
            DecoderModel { last_data_gy: d3, last_timestamp_gy: s.timestamp, ..s },
            seq![
                SampleModel { timestamp: ts1, sensor_tag: st, data: d1 },
                SampleModel { timestamp: ts2, sensor_tag: st, data: d2 },
                SampleModel { timestamp: s.timestamp, sensor_tag: st, data: d3 },
            ],
        )
    }
}

/// Tag named by a 5-bit code, with unknown codes folded to `Empty`; the
/// decoder only consults this after the validity check, where every code
/// is known.
pub open spec fn spec_tag_total(code: u8) -> Tag {
    match spec_tag_of_code(code) {
        Some(t) => t,
        _ => Tag::Empty,
    }
}

/// Dispatch on the record kind, after the header checks and the clock
/// advance: the successor state and the emitted samples, before the
/// rolling counter is remembered.
pub open spec fn spec_dispatch(s1: DecoderModel, t: Tag, b: Seq<u8>) -> (DecoderModel, Seq<
    SampleModel,
>)
    recommends
        b.len() == 7,
{
    if t == Tag::Odrchg {
        (spec_apply_rate_change(s1, b), Seq::<SampleModel>::empty())
    } else if t == Tag::Ts {
        (
            DecoderModel { timestamp: spec_le32(b[1], b[2], b[3], b[4]), ..s1 },
            Seq::<SampleModel>::empty(),
        )
    } else if t == Tag::Empty {
        (s1, Seq::<SampleModel>::empty())
    } else {
        match spec_compression_type(t) {
            CompressionType::Nc => spec_decode_nc(s1, t, b),
            CompressionType::NcT1 => spec_decode_nct(s1, t, b, false),
            CompressionType::NcT2 => spec_decode_nct(s1, t, b, true),
            CompressionType::Comp2x => spec_decode_c2(s1, t, b),
            CompressionType::Comp3x => spec_decode_c3(s1, t, b),
        }
    }
}

/// What processing one slot does: the legacy parity check, the tag
/// validity check, the counter-driven clock advance, then the dispatch on
/// the record kind.  The rolling counter is remembered whatever the tag.
pub open spec fn spec_step(s: DecoderModel, b: Seq<u8>) -> StepModel
    recommends
        b.len() == 7,
{
    let tag5 = spec_slot_tag(b[0]);
    let c2 = spec_slot_counter(b[0]);
    if s.fifo_ver == 0 && !spec_even_parity(b[0]) {
        StepModel::Fail(Status::CorruptHeader)
    } else if tag5 > spec_tag_valid_limit(s.fifo_ver) {
        StepModel::Fail(Status::InvalidTag)
    } else {
        let s1 = spec_counter_advance(s, c2);
        let t = spec_tag_total(tag5);
        let next = spec_dispatch(s1, t, b);
        StepModel::Emit(DecoderModel { tag_counter_old: c2, ..next.0 }, next.1)
    }
}

/// Fold of `spec_step` over a buffer of slots.  The first error stops the
/// run with the state the failing slot found; a slot whose samples exceed
/// the remaining room stops it with `CapacityExceeded` the same way.
pub open spec fn spec_run(s: DecoderModel, slots: Seq<Seq<u8>>, room: nat) -> RunModel
    decreases slots.len(),
{
    if slots.len() == 0 {
        RunModel { status: Status::Success, state: s, outs: Seq::empty() }
    } else {
        match spec_step(s, slots[0]) {
            StepModel::Fail(e) => RunModel { status: e, state: s, outs: Seq::empty() },
            StepModel::Emit(s2, emitted) => {
                if emitted.len() > room {
                    RunModel { status: Status::CapacityExceeded, state: s, outs: Seq::empty() }
                } else {
                    let rest = spec_run(s2, slots.drop_first(), (room - emitted.len()) as nat);
                    RunModel { status: rest.status, state: rest.state, outs: emitted + rest.outs }
                }
            },
        }
    }
}

/// A run never emits more samples than it had room for.
pub proof fn lemma_run_outs_bound(s: DecoderModel, slots: Seq<Seq<u8>>, room: nat)
    ensures
        spec_run(s, slots, room).outs.len() <= room,
    decreases slots.len(),
{
    if slots.len() > 0 {
        match spec_step(s, slots[0]) {
            StepModel::Fail(e) => {},
            StepModel::Emit(s2, emitted) => {
                if emitted.len() <= room {
                    lemma_run_outs_bound(s2, slots.drop_first(), (room - emitted.len()) as nat);
                }
            },
        }
    }
}

/// Splitting a run: processing `a + b` is processing `a`, then — if that
/// succeeded — processing `b` from where `a` left off, with the room the
/// samples of `a` have not used.
pub proof fn lemma_run_append(s: DecoderModel, a: Seq<Seq<u8>>, b: Seq<Seq<u8>>, room: nat)
    ensures
        spec_run(s, a + b, room) == ({
            let ra = spec_run(s, a, room);
            if ra.status != Status::Success {
                ra
            } else {
                let rb = spec_run(ra.state, b, (room - ra.outs.len()) as nat);
                RunModel { status: rb.status, state: rb.state, outs: ra.outs + rb.outs }
            }
        }),
    decreases a.len(),
{
    lemma_run_outs_bound(s, a, room);
    if a.len() == 0 {
        assert(a + b =~= b);
        let ra = spec_run(s, a, room);
        let rb = spec_run(ra.state, b, (room - ra.outs.len()) as nat);
        assert(ra.outs + rb.outs =~= rb.outs);
        assert(spec_run(s, a + b, room) =~= RunModel {
            status: rb.status,
            state: rb.state,
            outs: ra.outs + rb.outs,
        });
    } else {
        assert((a + b)[0] == a[0]);
        assert((a + b).drop_first() =~= a.drop_first() + b);
        match spec_step(s, a[0]) {
            StepModel::Fail(e) => {
                assert(spec_run(s, a + b, room) == spec_run(s, a, room));
            },
            StepModel::Emit(s2, emitted) => {
                if emitted.len() > room {
                    assert(spec_run(s, a + b, room) == spec_run(s, a, room));
                } else {
                    let room2 = (room - emitted.len()) as nat;
                    lemma_run_append(s2, a.drop_first(), b, room2);
                    lemma_run_outs_bound(s2, a.drop_first(), room2);
                    let ra = spec_run(s, a, room);
                    if ra.status == Status::Success {
                        let rb = spec_run(ra.state, b, (room - ra.outs.len()) as nat);
                        assert(emitted + (spec_run(s2, a.drop_first(), room2).outs + rb.outs)
                            =~= ra.outs + rb.outs);
                        assert(spec_run(s, a + b, room) =~= RunModel {
                            status: rb.status,
                            state: rb.state,
                            outs: ra.outs + rb.outs,
                        });
                    }
                }
            },
        }
    }
}

/// One step of the decode loop, seen through `spec_run`.  Given that the
/// first `i` slots ran cleanly to `st_pre` emitting `outs`, slot `i`
/// either fails the whole run with the state it found, overflows the
/// remaining room the same way, or extends the clean prefix.
pub proof fn lemma_run_step_extend(
    s0: DecoderModel,
    slots: Seq<Seq<u8>>,
    i: int,
    cap: nat,
    st_pre: DecoderModel,
    outs: Seq<SampleModel>,
)
    requires
        0 <= i < slots.len(),
        spec_run(s0, slots.take(i), cap) == (RunModel {
            status: Status::Success,
            state: st_pre,
            outs: outs,
        }),
        outs.len() <= cap,
    ensures
        (match spec_step(st_pre, slots[i]) {
            StepModel::Fail(e) => spec_run(s0, slots, cap) == (RunModel {
                status: e,
                state: st_pre,
                outs: outs,
            }),
            StepModel::Emit(s2, em) => {
                if em.len() + outs.len() > cap {
                    spec_run(s0, slots, cap) == (RunModel {
                        status: Status::CapacityExceeded,
                        state: st_pre,
                        outs: outs,
                    })
                } else {
                    spec_run(s0, slots.take(i + 1), cap) == (RunModel {
                        status: Status::Success,
                        state: s2,
                        outs: outs + em,
                    })
                }
            },
        }),
{
    assert(slots.skip(i).len() > 0);
    assert(slots.skip(i)[0] == slots[i]);
    match spec_step(st_pre, slots[i]) {
        StepModel::Fail(e) => {
            lemma_run_append(s0, slots.take(i), slots.skip(i), cap);
            assert(slots.take(i) + slots.skip(i) =~= slots);
            assert(spec_run(st_pre, slots.skip(i), (cap - outs.len()) as nat) == RunModel {
                status: e,
                state: st_pre,
                outs: Seq::<SampleModel>::empty(),
            });
            assert(outs + Seq::<SampleModel>::empty() =~= outs);
        },
        StepModel::Emit(s2, em) => {
            if em.len() + outs.len() > cap {
                lemma_run_append(s0, slots.take(i), slots.skip(i), cap);
                assert(slots.take(i) + slots.skip(i) =~= slots);
                assert(em.len() > (cap - outs.len()) as nat);
                assert(spec_run(st_pre, slots.skip(i), (cap - outs.len()) as nat) == RunModel {
                    status: Status::CapacityExceeded,
                    state: st_pre,
                    outs: Seq::<SampleModel>::empty(),
                });
                assert(outs + Seq::<SampleModel>::empty() =~= outs);
            } else {
                lemma_run_append(s0, slots.take(i), seq![slots[i]], cap);
                assert(slots.take(i) + seq![slots[i]] =~= slots.take(i + 1));
                let single = seq![slots[i]];
                assert(single.drop_first() =~= Seq::<Seq<u8>>::empty());
                assert(spec_run(s2, single.drop_first(), (cap - outs.len() - em.len()) as nat)
                    == RunModel { status: Status::Success, state: s2, outs: Seq::empty() });
                assert(spec_run(st_pre, single, (cap - outs.len()) as nat) == RunModel {
                    status: Status::Success,
                    state: s2,
                    outs: em + Seq::<SampleModel>::empty(),
                });
                assert(em + Seq::<SampleModel>::empty() =~= em);
            }
        },
    }
}

} // verus!
