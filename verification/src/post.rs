//! Post-processing of a decoded buffer: stable time-ordering sort,
//! per-sensor counting, and per-sensor extraction.
//!
//! Decode order is already nearly monotonic — only the compression
//! branches emit slightly out-of-order timestamps — so a stable insertion
//! sort is used.  Its contract is the insertion-sort fold itself, which
//! pins both the ordering and the stability for equal timestamps.

use vstd::prelude::*;

use crate::decoder::{FifoData, OutSlot};
use crate::tags::SensorType;

verus! {

/// A sample inserted into an already-built buffer, walking from the back
/// past every strictly later timestamp: equal timestamps keep their
/// relative order.
pub open spec fn spec_insert_by_time(sorted: Seq<OutSlot>, x: OutSlot) -> Seq<OutSlot>
    decreases sorted.len(),
{
    if sorted.len() == 0 {
        seq![x]
    } else if sorted.last().timestamp <= x.timestamp {
        sorted.push(x)
    } else {
        spec_insert_by_time(sorted.drop_last(), x).push(sorted.last())
    }
}

/// Stable insertion sort by timestamp.
pub open spec fn spec_sort_by_time(s: Seq<OutSlot>) -> Seq<OutSlot>
    decreases s.len(),
{
    if s.len() == 0 {
        Seq::empty()
    } else {
        spec_insert_by_time(spec_sort_by_time(s.drop_last()), s.last())
    }
}

/// Number of samples of one sensor type in a buffer.
pub open spec fn spec_count_sensor(s: Seq<OutSlot>, t: SensorType) -> nat
    decreases s.len(),
{
    if s.len() == 0 {
        0
    } else {
        spec_count_sensor(s.drop_last(), t) + if s.last().sensor_tag == t {
            1nat
        } else {
            0nat
        }
    }
}

/// The samples of one sensor type, in their original relative order.
pub open spec fn spec_filter_sensor(s: Seq<OutSlot>, t: SensorType) -> Seq<OutSlot>
    decreases s.len(),
{
    if s.len() == 0 {
        Seq::empty()
    } else {
        let r = spec_filter_sensor(s.drop_last(), t);
        if s.last().sensor_tag == t {
            r.push(s.last())
        } else {
            r
        }
    }
}

/// Extraction keeps exactly as many samples as counting finds.
pub proof fn lemma_filter_count(s: Seq<OutSlot>, t: SensorType)
    ensures
        spec_filter_sensor(s, t).len() == spec_count_sensor(s, t),
    decreases s.len(),
{
    if s.len() > 0 {
        lemma_filter_count(s.drop_last(), t);
    }
}

/// Counting over a longer prefix never finds fewer samples.
proof fn lemma_count_take_monotone(s: Seq<OutSlot>, t: SensorType, i: int, j: int)
    requires
        0 <= i <= j <= s.len(),
    ensures
        spec_count_sensor(s.take(i), t) <= spec_count_sensor(s.take(j), t),
    decreases j - i,
{
    if i < j {
        lemma_count_take_monotone(s, t, i, j - 1);
        assert(s.take(j).drop_last() =~= s.take(j - 1));
    }
}

/// Inserting `x` at the first position from the back whose predecessor is
/// not later than `x` is what the insertion fold computes.
proof fn lemma_insert_split(a: Seq<OutSlot>, x: OutSlot, p: int)
    requires
        0 <= p <= a.len(),
        forall|m: int| p <= m < a.len() ==> a[m].timestamp > x.timestamp,
        p > 0 ==> a[p - 1].timestamp <= x.timestamp,
    ensures
        spec_insert_by_time(a, x) == a.take(p) + seq![x] + a.skip(p),
    decreases a.len(),
{
    if a.len() == 0 {
        assert(spec_insert_by_time(a, x) =~= a.take(p) + seq![x] + a.skip(p));
    } else if p == a.len() {
        assert(a.take(p) + seq![x] + a.skip(p) =~= a.push(x));
    } else {
        assert(a[a.len() - 1].timestamp > x.timestamp);
        lemma_insert_split(a.drop_last(), x, p);
        assert(a.drop_last().take(p) =~= a.take(p));
        assert((a.drop_last().take(p) + seq![x] + a.drop_last().skip(p)).push(a.last())
            =~= a.take(p) + seq![x] + a.skip(p));
    }
}

/// Inserting into a buffer whose timestamps do not exceed the new
/// sample's appends it at the end.
proof fn lemma_insert_at_end(a: Seq<OutSlot>, x: OutSlot)
    requires
        forall|m: int| 0 <= m < a.len() ==> a[m].timestamp <= x.timestamp,
    ensures
        spec_insert_by_time(a, x) == a.push(x),
{
    lemma_insert_split(a, x, a.len() as int);
    assert(a.take(a.len() as int) + seq![x] + a.skip(a.len() as int) =~= a.push(x));
}

/// Sorting an already-sorted buffer is a no-op, duplicates included.
pub proof fn lemma_sort_sorted_identity(s: Seq<OutSlot>)
    requires
        forall|k: int, l: int| 0 <= k < l < s.len() ==> s[k].timestamp <= s[l].timestamp,
    ensures
        spec_sort_by_time(s) == s,
    decreases s.len(),
{
    if s.len() > 0 {
        lemma_sort_sorted_identity(s.drop_last());
        lemma_insert_at_end(s.drop_last(), s.last());
        assert(s.drop_last().push(s.last()) =~= s);
    }
}

/// The sorted buffer is ordered by timestamp.
pub proof fn lemma_insert_preserves_sorted(a: Seq<OutSlot>, x: OutSlot)
    requires
        forall|k: int, l: int| 0 <= k < l < a.len() ==> a[k].timestamp <= a[l].timestamp,
    ensures
        ({
            let r = spec_insert_by_time(a, x);
            &&& r.len() == a.len() + 1
            &&& forall|k: int, l: int| 0 <= k < l < r.len() ==> r[k].timestamp <= r[l].timestamp
        }),
    decreases a.len(),
{
    if a.len() == 0 {
    } else if a.last().timestamp <= x.timestamp {
    } else {
        lemma_insert_preserves_sorted(a.drop_last(), x);
        let rd = spec_insert_by_time(a.drop_last(), x);
        let r = rd.push(a.last());
        assert forall|k: int, l: int| 0 <= k < l < r.len() implies r[k].timestamp
            <= r[l].timestamp by {
            if l < r.len() - 1 {
                assert(rd[k].timestamp <= rd[l].timestamp);
            } else {
                if k < r.len() - 1 {
                    assert(r[k] == rd[k]);
                    lemma_insert_members(a.drop_last(), x, k);
                }
            }
        }
    }
}

/// Every element of an insertion result is the inserted sample or an
/// element of the original buffer.
proof fn lemma_insert_members(a: Seq<OutSlot>, x: OutSlot, k: int)
    requires
        0 <= k < spec_insert_by_time(a, x).len(),
    ensures
        spec_insert_by_time(a, x)[k] == x || exists|m: int|
            0 <= m < a.len() && spec_insert_by_time(a, x)[k] == a[m],
    decreases a.len(),
{
    if a.len() == 0 {
    } else if a.last().timestamp <= x.timestamp {
        if k < a.len() {
            assert(spec_insert_by_time(a, x)[k] == a[k]);
        }
    } else {
        if k < spec_insert_by_time(a, x).len() - 1 {
            lemma_insert_members(a.drop_last(), x, k);
            assert forall|m: int| 0 <= m < a.len() - 1 && spec_insert_by_time(a.drop_last(), x)[k]
                == a.drop_last()[m] implies spec_insert_by_time(a, x)[k] == a[m] by {
                assert(a.drop_last()[m] == a[m]);
            }
        } else {
            assert(spec_insert_by_time(a, x)[k] == a.last());
        }
    }
}

/// The fold's result is ordered by timestamp.
pub proof fn lemma_sort_sorted(s: Seq<OutSlot>)
    ensures
        ({
            let r = spec_sort_by_time(s);
            &&& r.len() == s.len()
            &&& forall|k: int, l: int| 0 <= k < l < r.len() ==> r[k].timestamp <= r[l].timestamp
        }),
    decreases s.len(),
{
    if s.len() > 0 {
        lemma_sort_sorted(s.drop_last());
        lemma_insert_preserves_sorted(spec_sort_by_time(s.drop_last()), s.last());
    }
}

impl FifoData {
    /// Stable insertion sort of the first `out_slot_size` samples by
    /// timestamp; entries past that size are left alone.  The result is
    /// exactly the insertion-sort fold of the prefix, so equal timestamps
    /// keep their decode order.
    pub fn sort(&self, fifo_out_slot: &mut [OutSlot], out_slot_size: u16)
        requires
            out_slot_size as int <= old(fifo_out_slot)@.len(),
        ensures
            final(fifo_out_slot)@.len() == old(fifo_out_slot)@.len(),
            final(fifo_out_slot)@.take(out_slot_size as int) == spec_sort_by_time(
                old(fifo_out_slot)@.take(out_slot_size as int),
            ),
            (forall|k: int|
                out_slot_size as int <= k < old(fifo_out_slot)@.len()
                    ==> final(fifo_out_slot)@[k] == old(fifo_out_slot)@[k]),
    {
        let size = out_slot_size as usize;
        if size == 0 {
            proof {
                assert(old(fifo_out_slot)@.take(0) =~= Seq::<OutSlot>::empty());
                assert(spec_sort_by_time(old(fifo_out_slot)@.take(0)) =~= Seq::<OutSlot>::empty());
                assert(fifo_out_slot@.take(0) =~= Seq::<OutSlot>::empty());
            }
            return ;
        }
        let mut i: usize = 1;
        proof {
            let s1 = old(fifo_out_slot)@.take(1);
            assert(s1.drop_last() =~= Seq::<OutSlot>::empty());
            assert(spec_sort_by_time(s1) == spec_insert_by_time(
                spec_sort_by_time(s1.drop_last()),
                s1.last(),
            ));
            assert(spec_sort_by_time(Seq::<OutSlot>::empty()) =~= Seq::<OutSlot>::empty());
            assert(spec_insert_by_time(Seq::<OutSlot>::empty(), s1.last()) =~= seq![s1.last()]);
            assert(fifo_out_slot@.take(1) =~= seq![s1.last()]);
        }
        while i < size
            invariant
                1 <= i <= size,
                size <= fifo_out_slot@.len(),
                size == out_slot_size as int,
                fifo_out_slot@.len() == old(fifo_out_slot)@.len(),
                fifo_out_slot@.take(i as int) == spec_sort_by_time(
                    old(fifo_out_slot)@.take(i as int),
                ),
                forall|k: int|
                    i as int <= k < fifo_out_slot@.len() ==> fifo_out_slot@[k] == old(
                        fifo_out_slot,
                    )@[k],
            decreases size - i,
        {
            let ghost a = fifo_out_slot@.take(i as int);
            let temp = fifo_out_slot[i];
            proof {
                assert(temp == old(fifo_out_slot)@[i as int]);
            }
            let mut jj: usize = i;
            while jj > 0 && fifo_out_slot[jj - 1].timestamp > temp.timestamp
                invariant
                    jj <= i,
                    i < size,
                    size <= fifo_out_slot@.len(),
                    fifo_out_slot@.len() == old(fifo_out_slot)@.len(),
                    a.len() == i as int,
                    forall|m: int| 0 <= m < jj as int ==> fifo_out_slot@[m] == a[m],
                    forall|m: int|
                        (jj as int) < m && m <= i as int ==> fifo_out_slot@[m] == a[m - 1],
                    forall|m: int|
                        jj as int <= m < i as int ==> a[m].timestamp > temp.timestamp,
                    forall|k: int|
                        (i as int) < k && k < fifo_out_slot@.len() ==> fifo_out_slot@[k] == old(
                            fifo_out_slot,
                        )@[k],
                decreases jj,
            {
                let moved = fifo_out_slot[jj - 1];
                fifo_out_slot[jj] = moved;
                jj -= 1;
            }
            fifo_out_slot[jj] = temp;
            proof {
                lemma_insert_split(a, temp, jj as int);
                assert(fifo_out_slot@.take(i as int + 1) =~= a.take(jj as int) + seq![temp]
                    + a.skip(jj as int));
                assert(old(fifo_out_slot)@.take(i as int + 1).drop_last() =~= old(
                    fifo_out_slot,
                )@.take(i as int));
                assert(old(fifo_out_slot)@.take(i as int + 1).last() == temp);
            }
            i += 1;
        }
    }

    /// Number of samples of the given sensor type among the first
    /// `out_slot_size` entries.
    pub fn get_sensor_occurrence(
        &self,
        fifo_out_slot: &[OutSlot],
        out_slot_size: u16,
        sensor_type: SensorType,
    ) -> (occurrence: u16)
        requires
            out_slot_size as int <= fifo_out_slot@.len(),
        ensures
            occurrence == spec_count_sensor(
                fifo_out_slot@.take(out_slot_size as int),
                sensor_type,
            ),
    {
        let size = out_slot_size as usize;
        let mut occurrence: u16 = 0;
        let mut i: usize = 0;
        proof {
            assert(fifo_out_slot@.take(0) =~= Seq::<OutSlot>::empty());
        }
        while i < size
            invariant
                i <= size,
                size <= fifo_out_slot@.len(),
                size == out_slot_size as int,
                occurrence == spec_count_sensor(fifo_out_slot@.take(i as int), sensor_type),
                occurrence <= i,
            decreases size - i,
        {
            proof {
                assert(fifo_out_slot@.take(i as int + 1).drop_last() =~= fifo_out_slot@.take(
                    i as int,
                ));
            }
            if fifo_out_slot[i].sensor_tag == sensor_type {
                occurrence += 1;
            }
            i += 1;
        }
        occurrence
    }

    /// Copies the samples of the given sensor type among the first
    /// `out_slot_size` entries into `sensor_out_slot`, in their original
    /// relative order.  The caller sizes the destination from
    /// `get_sensor_occurrence`.
    pub fn extract_sensor(
        &self,
        sensor_out_slot: &mut [OutSlot],
        fifo_out_slot: &[OutSlot],
        out_slot_size: u16,
        sensor_type: SensorType,
    )
        requires
            out_slot_size as int <= fifo_out_slot@.len(),
            spec_count_sensor(fifo_out_slot@.take(out_slot_size as int), sensor_type) <= old(
                sensor_out_slot,
            )@.len(),
        ensures
            final(sensor_out_slot)@.len() == old(sensor_out_slot)@.len(),
            ({
                let matched = spec_filter_sensor(
                    fifo_out_slot@.take(out_slot_size as int),
                    sensor_type,
                );
                &&& final(sensor_out_slot)@.take(matched.len() as int) == matched
                &&& (forall|k: int|
                    matched.len() <= k < old(sensor_out_slot)@.len()
                        ==> final(sensor_out_slot)@[k] == old(sensor_out_slot)@[k])
            }),
    {
        let size = out_slot_size as usize;
        let mut temp_i: usize = 0;
        let mut i: usize = 0;
        proof {
            assert(fifo_out_slot@.take(0) =~= Seq::<OutSlot>::empty());
            assert(sensor_out_slot@.take(0) =~= Seq::<OutSlot>::empty());
            lemma_filter_count(fifo_out_slot@.take(out_slot_size as int), sensor_type);
        }
        while i < size
            invariant
                i <= size,
                size <= fifo_out_slot@.len(),
                size == out_slot_size as int,
                sensor_out_slot@.len() == old(sensor_out_slot)@.len(),
                spec_count_sensor(fifo_out_slot@.take(size as int), sensor_type) <= old(
                    sensor_out_slot,
                )@.len(),
                temp_i == spec_count_sensor(fifo_out_slot@.take(i as int), sensor_type),
                sensor_out_slot@.take(temp_i as int) == spec_filter_sensor(
                    fifo_out_slot@.take(i as int),
                    sensor_type,
                ),
                forall|k: int|
                    temp_i as int <= k < sensor_out_slot@.len() ==> sensor_out_slot@[k] == old(
                        sensor_out_slot,
                    )@[k],
            decreases size - i,
        {
            proof {
                assert(fifo_out_slot@.take(i as int + 1).drop_last() =~= fifo_out_slot@.take(
                    i as int,
                ));
                lemma_count_take_monotone(fifo_out_slot@, sensor_type, i as int + 1, size as int);
                lemma_filter_count(fifo_out_slot@.take(i as int), sensor_type);
            }
            if fifo_out_slot[i].sensor_tag == sensor_type {
                sensor_out_slot[temp_i] = fifo_out_slot[i];
                proof {
                    assert(sensor_out_slot@.take(temp_i as int + 1) =~= spec_filter_sensor(
                        fifo_out_slot@.take(i as int),
                        sensor_type,
                    ).push(fifo_out_slot@[i as int]));
                }
                temp_i += 1;
            }
            i += 1;
        }
    }
}

} // verus!
