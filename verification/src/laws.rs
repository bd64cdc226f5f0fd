//! Properties of slot processing, stated and proved against the model.
//!
//! Each law speaks about `spec_step` (or one of its pieces), which the
//! decode operation's contract ties to the executable code, so these
//! statements carry over to every decode call.

use vstd::prelude::*;

use crate::Status;
use crate::model::{
    DecoderModel, StepModel, spec_counter_advance, spec_ctr_diff, spec_even_parity, spec_le32,
    spec_slot_tag, spec_step, spec_tag_total, w_add, w_mul,
};
use crate::profile::{spec_bdr_acc, spec_bdr_gyr, spec_bdr_vsens, spec_dtime, spec_resolve};
use crate::tags::{Tag, spec_sample_count, tag_code};

verus! {

/// A rate-change slot emits no sample, stashes both current intervals
/// into the `*_old` fields, re-resolves all three intervals from the
/// newly selected rates (the minimum one against the largest of the
/// three), and raises both rate-changed flags.
pub proof fn lemma_rate_change_slot(s: DecoderModel, b: Seq<u8>)
    requires
        b.len() == 7,
        spec_slot_tag(b[0]) == tag_code(Tag::Odrchg),
        s.fifo_ver == 0 ==> spec_even_parity(b[0]),
    ensures
        (match spec_step(s, b) {
            StepModel::Emit(s2, em) => {
                let ver = s.fifo_ver;
                let bdr_xl = spec_bdr_acc(ver)[(b[6] & 0x0F) as int];
                let bdr_gy = spec_bdr_gyr(ver)[((b[6] & 0xF0) >> 4) as int];
                let bdr_vs = spec_bdr_vsens(ver)[(b[4] & 0x0F) as int];
                let bdr_max = if (if bdr_xl > bdr_gy {
                    bdr_xl
                } else {
                    bdr_gy
                }) > bdr_vs {
                    if bdr_xl > bdr_gy {
                        bdr_xl
                    } else {
                        bdr_gy
                    }
                } else {
                    bdr_vs
                };
                &&& em.len() == 0
                &&& s2.dtime_xl_old == s.dtime_xl
                &&& s2.dtime_gy_old == s.dtime_gy
                &&& s2.dtime_xl == spec_dtime(ver)[spec_resolve(spec_bdr_acc(ver), bdr_xl)]
                &&& s2.dtime_gy == spec_dtime(ver)[spec_resolve(spec_bdr_gyr(ver), bdr_gy)]
                &&& s2.dtime_min == spec_dtime(ver)[spec_resolve(spec_bdr_acc(ver), bdr_max)]
                &&& s2.bdr_chg_xl
                &&& s2.bdr_chg_gy
            },
            StepModel::Fail(e) => false,
        }),
{
    let b0 = b[0];
    assert((b0 & 0xF8) >> 3 <= 0x19) by (bit_vector)
        requires
            (b0 & 0xF8) >> 3 == 0x05,
    ;
}

/// A step-counter or machine-learning-core-result slot dates its sample
/// from the 4-byte little-endian timestamp embedded in its payload, not
/// from the running clock.
pub proof fn lemma_embedded_timestamp(s: DecoderModel, b: Seq<u8>)
    requires
        b.len() == 7,
        spec_slot_tag(b[0]) == tag_code(Tag::StepCounter) || spec_slot_tag(b[0]) == tag_code(
            Tag::MlcResult,
        ),
        spec_slot_tag(b[0]) <= crate::profile::spec_tag_valid_limit(s.fifo_ver),
        s.fifo_ver == 0 ==> spec_even_parity(b[0]),
    ensures
        (match spec_step(s, b) {
            StepModel::Emit(s2, em) => em.len() == 1 && em[0].timestamp == spec_le32(
                b[3],
                b[4],
                b[5],
                b[6],
            ),
            StepModel::Fail(e) => false,
        }),
{
}

/// The rolling counter wraps forward: from a previous counter of 3, a
/// slot counter of 0 is one step ahead, so the clock advances by exactly
/// one minimum interval — never backwards.
pub proof fn lemma_counter_wraparound(s: DecoderModel, c2: u8)
    requires
        s.tag_counter_old == 3,
        c2 == 0,
        s.dtime_min != 0,
    ensures
        spec_ctr_diff(c2, s.tag_counter_old) == 1,
        spec_counter_advance(s, c2).timestamp == w_add(s.timestamp, s.dtime_min),
{
    assert(w_mul(s.dtime_min, 1) == s.dtime_min) by {
        assert(s.dtime_min as nat * 1nat == s.dtime_min as nat);
        assert((s.dtime_min as nat) % 0x1_0000_0000nat == s.dtime_min as nat);
    }
}

/// Every accepted slot emits exactly as many samples as its tag's
/// compression scheme says: one for the uncompressed kinds, two for
/// Delta-2-sample, three for Delta-3-sample, and none for the empty,
/// explicit-timestamp and rate-change records.
pub proof fn lemma_sample_counts(s: DecoderModel, b: Seq<u8>)
    requires
        b.len() == 7,
    ensures
        (match spec_step(s, b) {
            StepModel::Emit(s2, em) => em.len() == spec_sample_count(
                spec_tag_total(spec_slot_tag(b[0])),
            ),
            StepModel::Fail(e) => true,
        }),
{
}

/// On the legacy protocol an odd-parity header corrupts the slot before
/// any other processing: the step fails with `CorruptHeader` whatever the
/// tag, the counter, or the payload hold.
pub proof fn lemma_parity_checked_first(s: DecoderModel, b: Seq<u8>)
    requires
        b.len() == 7,
        s.fifo_ver == 0,
        !spec_even_parity(b[0]),
    ensures
        spec_step(s, b) == StepModel::Fail(Status::CorruptHeader),
{
}

} // verus!
