//! The decoder state machine.
//!
//! A `FifoData` is created once per physical sensor session and mutates
//! across every decode call for that session: it owns the running clock,
//! the per-channel intervals and delta bases, and the last seen rolling
//! counter.  `decode` consumes raw 7-byte slots and appends typed samples
//! to a caller-provided buffer; its contract equates the whole call with
//! `spec_run` over the input.

use vstd::prelude::*;

use crate::Status;
use crate::model::{
    DecoderModel, SampleModel, StepModel, lemma_run_step_extend, spec_apply_rate_change,
    spec_counter_advance, spec_decode_c2, spec_decode_c3, spec_decode_nc, spec_decode_nct,
    spec_diff2x, spec_diff3x, spec_dispatch, spec_even_parity, spec_field5, spec_le32, spec_run,
    spec_sbyte, spec_step, spec_tag_total, spec_wf,
};
use crate::profile::{
    Device, DeviceType, bdr_get_index, spec_bdr_acc, spec_bdr_gyr, spec_dtime, spec_fifo_version,
    spec_resolve, spec_tag_valid_limit,
};
use crate::sensor_data::{SensorData, spec_axis_triple, spec_combine};
use crate::tags::{
    BdrMask, BdrShift, CompressionType, SensorType, Tag, TagMask, TagShift, spec_compression_type,
    spec_sample_count, spec_sensor_type,
};

verus! {

/// One raw 7-byte slot exactly as popped from the hardware FIFO output
/// registers: a header byte followed by six payload bytes.
#[derive(Clone, Copy, Debug)]
pub struct RawSlot {
    pub fifo_data_out: [u8; 7],
}

/// One decoded sample: reconstructed timestamp, sensor type, and the
/// three 16-bit payload words.
#[derive(Clone, Copy, Debug)]
pub struct OutSlot {
    pub timestamp: u32,
    pub sensor_tag: SensorType,
    pub sensor_data: SensorData,
}

impl View for OutSlot {
    type V = SampleModel;

    open spec fn view(&self) -> SampleModel {
        SampleModel {
            timestamp: self.timestamp,
            sensor_tag: self.sensor_tag,
            data: self.sensor_data.data@,
        }
    }
}

/// Requested decoder configuration: the device variant and the requested
/// batch rates, in millihertz so that every hardware rate is exact.
#[derive(Clone, Copy, Debug)]
pub struct Config {
    /// Device variant to select the profile and protocol generation.
    pub device: DeviceType,
    /// Requested accelerometer batch rate, millihertz.
    pub bdr_xl: i32,
    /// Requested gyroscope batch rate, millihertz.
    pub bdr_gy: i32,
    /// Requested virtual-sensor batch rate, millihertz.
    pub bdr_vsens: i32,
}

/// Decoder state for one physical FIFO stream.
#[derive(Clone)]
pub struct FifoData {
    fifo_ver: u8,
    tag_counter_old: u8,
    dtime_xl: u32,
    dtime_gy: u32,
    dtime_min: u32,
    dtime_xl_old: u32,
    dtime_gy_old: u32,
    timestamp: u32,
    last_timestamp_xl: u32,
    last_timestamp_gy: u32,
    bdr_chg_xl_flag: u8,
    bdr_chg_gy_flag: u8,
    last_data_xl: [i16; 3],
    last_data_gy: [i16; 3],
}

impl View for FifoData {
    type V = DecoderModel;

    closed spec fn view(&self) -> DecoderModel {
        DecoderModel {
            fifo_ver: self.fifo_ver,
            tag_counter_old: self.tag_counter_old,
            dtime_xl: self.dtime_xl,
            dtime_gy: self.dtime_gy,
            dtime_min: self.dtime_min,
            dtime_xl_old: self.dtime_xl_old,
            dtime_gy_old: self.dtime_gy_old,
            timestamp: self.timestamp,
            last_timestamp_xl: self.last_timestamp_xl,
            last_timestamp_gy: self.last_timestamp_gy,
            bdr_chg_xl: self.bdr_chg_xl_flag == 1,
            bdr_chg_gy: self.bdr_chg_gy_flag == 1,
            last_data_xl: self.last_data_xl@,
            last_data_gy: self.last_data_gy@,
        }
    }
}

/// State a fresh decoder starts in: intervals resolved from the requested
/// rates, the minimum interval from the largest of the three, clock and
/// counters at zero, flags down.
pub open spec fn spec_init_model(c: Config) -> DecoderModel {
    let ver = spec_fifo_version(c.device);
    let bdr_max = if c.bdr_xl > c.bdr_gy {
        c.bdr_xl
    } else {
        c.bdr_gy
    };
    let bdr_max = if bdr_max > c.bdr_vsens {
        bdr_max
    } else {
        c.bdr_vsens
    };
    DecoderModel {
        fifo_ver: ver,
        tag_counter_old: 0,
        dtime_xl: spec_dtime(ver)[spec_resolve(spec_bdr_acc(ver), c.bdr_xl)],
        dtime_gy: spec_dtime(ver)[spec_resolve(spec_bdr_gyr(ver), c.bdr_gy)],
        dtime_min: spec_dtime(ver)[spec_resolve(spec_bdr_acc(ver), bdr_max)],
        dtime_xl_old: spec_dtime(ver)[spec_resolve(spec_bdr_acc(ver), c.bdr_xl)],
        dtime_gy_old: spec_dtime(ver)[spec_resolve(spec_bdr_gyr(ver), c.bdr_gy)],
        timestamp: 0,
        last_timestamp_xl: 0,
        last_timestamp_gy: 0,
        bdr_chg_xl: false,
        bdr_chg_gy: false,
        last_data_xl: seq![0i16, 0i16, 0i16],
        last_data_gy: seq![0i16, 0i16, 0i16],
    }
}

impl FifoData {
    /// Builds a decoder for the configured device and rates.  A negative
    /// requested rate is rejected as `InvalidConfig`; any non-negative
    /// rates are accepted and quantized to the device's tables.
    pub fn init(conf: &Config) -> (r: Result<FifoData, Status>)
        ensures
            match r {
                Result::Ok(d) => conf.bdr_xl >= 0 && conf.bdr_gy >= 0 && conf.bdr_vsens >= 0
                    && d@ == spec_init_model(*conf) && spec_wf(d@),
                Result::Err(e) => e == Status::InvalidConfig && (conf.bdr_xl < 0 || conf.bdr_gy < 0
                    || conf.bdr_vsens < 0),
            },
    {
        if conf.bdr_xl < 0 || conf.bdr_gy < 0 || conf.bdr_vsens < 0 {
            return Result::Err(Status::InvalidConfig);
        }
        let bdr_max = crate::max(crate::max(conf.bdr_xl, conf.bdr_gy), conf.bdr_vsens);
        let fifo_ver: u8 = if conf.device.code() < 9 {
            0
        } else {
            1
        };
        let d = Device::profile(fifo_ver);
        let idx_xl = bdr_get_index(&d.bdr_acc, conf.bdr_xl);
        let idx_gy = bdr_get_index(&d.bdr_gyr, conf.bdr_gy);
        let idx_min = bdr_get_index(&d.bdr_acc, bdr_max);
        proof {
            crate::profile::lemma_dtime_bounded(fifo_ver, idx_xl as int);
            crate::profile::lemma_dtime_bounded(fifo_ver, idx_gy as int);
            crate::profile::lemma_dtime_bounded(fifo_ver, idx_min as int);
        }
        let sensor_data = FifoData {
            fifo_ver,
            tag_counter_old: 0,
            dtime_xl: d.dtime[idx_xl],
            dtime_gy: d.dtime[idx_gy],
            dtime_min: d.dtime[idx_min],
            dtime_xl_old: d.dtime[idx_xl],
            dtime_gy_old: d.dtime[idx_gy],
            timestamp: 0,
            last_timestamp_xl: 0,
            last_timestamp_gy: 0,
            bdr_chg_xl_flag: 0,
            bdr_chg_gy_flag: 0,
            last_data_xl: [0i16; 3],
            last_data_gy: [0i16; 3],
        };
        proof {
            assert(sensor_data@.last_data_xl =~= spec_init_model(*conf).last_data_xl);
            assert(sensor_data@.last_data_gy =~= spec_init_model(*conf).last_data_gy);
            assert(sensor_data@ =~= spec_init_model(*conf));
        }
        Result::Ok(sensor_data)
    }

    /// Processes one 7-byte slot: header checks, capacity check, clock
    /// advance, dispatch.  Returns the slot's status and the next write
    /// position; on any failure the decoder state and the buffer are left
    /// exactly as the slot found them.
    #[verifier::rlimit(100)]
    fn process_slot(&mut self, fifo_out_slot: &mut [OutSlot], j: usize, b: &[u8]) -> (r: (
        Status,
        usize,
    ))
        requires
            spec_wf(old(self)@),
            b@.len() == 7,
            j <= old(fifo_out_slot)@.len(),
            old(fifo_out_slot)@.len() <= 0xFFFF,
        ensures
            final(fifo_out_slot)@.len() == old(fifo_out_slot)@.len(),
            (forall|k: int| 0 <= k < j ==> final(fifo_out_slot)@[k] == old(fifo_out_slot)@[k]),
            (match spec_step(old(self)@, b@) {
                StepModel::Fail(e) => r.0 == e && r.0 != Status::Success && r.1 == j
                    && final(self)@ == old(self)@
                    && final(fifo_out_slot)@ == old(fifo_out_slot)@,
                StepModel::Emit(s2, em) => {
                    if j + em.len() > old(fifo_out_slot)@.len() {
                        r.0 == Status::CapacityExceeded && r.1 == j && final(self)@ == old(self)@
                            && final(fifo_out_slot)@ == old(fifo_out_slot)@
                    } else {
                        &&& r.0 == Status::Success
                        &&& r.1 == j + em.len()
                        &&& final(self)@ == s2
                        &&& spec_wf(final(self)@)
                        &&& (forall|l: int|
                            0 <= l < em.len() ==> (#[trigger] final(fifo_out_slot)@[j + l])@
                                == em[l])
                        &&& (forall|k: int|
                            j + em.len() <= k < old(fifo_out_slot)@.len()
                                ==> final(fifo_out_slot)@[k] == old(fifo_out_slot)@[k])
                    }
                },
            }),
    {
        let ghost pre = self@;
        let cap: usize = fifo_out_slot.len();
        let h = b[0];
        let tag5 = (h & u8::from(TagMask::Sensor)) >> u8::from(TagShift::Sensor);
        let tag_counter = (h & u8::from(TagMask::Counter)) >> u8::from(TagShift::Counter);
        proof {
            assert(((h & 0x06) >> 1) <= 3 && ((h & 0xF8) >> 3) <= 0x1F) by (bit_vector);
        }

        if self.fifo_ver == 0 && !FifoData::has_even_parity(h) {
            return (Status::CorruptHeader, j);
        }

        if !self.is_tag_valid(tag5) {
            return (Status::InvalidTag, j);
        }

        let t = Tag::from_code(tag5).unwrap();
        let k = FifoData::sample_count(&t);
        let ghost step_r = spec_step(pre, b@);
        proof {
            assert(spec_tag_total(tag5) == t);
            match step_r {
                StepModel::Fail(e) => {
                    assert(false);
                },
                StepModel::Emit(s2, em) => {
                    assert(em.len() == spec_sample_count(t));
                },
            }
        }

        if j + k > cap {
            return (Status::CapacityExceeded, j);
        }

        if tag_counter != self.tag_counter_old && self.dtime_min != 0 {
            let diff_tag_counter: u8 = if tag_counter < self.tag_counter_old {
                tag_counter + 4 - self.tag_counter_old
            } else {
                tag_counter - self.tag_counter_old
            };
            self.timestamp = self.timestamp.wrapping_add(
                self.dtime_min.wrapping_mul(diff_tag_counter as u32),
            );
        }
        let ghost s1 = spec_counter_advance(pre, tag_counter);
        proof {
            assert(self@ =~= s1);
        }

        let j2 = self.dispatch_slot(fifo_out_slot, j, t, b);
        self.tag_counter_old = tag_counter;

        proof {
            match step_r {
                StepModel::Fail(e) => {
                    assert(false);
                },
                StepModel::Emit(s2, em) => {
                    assert(em == spec_dispatch(s1, t, b@).1);
                    assert(self@ =~= s2);
                },
            }
        }
        (Status::Success, j2)
    }

    /// Applies one record of the given tag to the state and writes its
    /// samples, if any, at positions `j` and up.
    fn dispatch_slot(&mut self, fifo_out_slot: &mut [OutSlot], j: usize, t: Tag, b: &[u8]) -> (j2:
        usize)
        requires
            spec_wf(old(self)@),
            b@.len() == 7,
            j + spec_sample_count(t) <= old(fifo_out_slot)@.len(),
            old(fifo_out_slot)@.len() <= 0xFFFF,
        ensures
            final(self)@ == spec_dispatch(old(self)@, t, b@).0,
            spec_wf(final(self)@),
            j2 == j + spec_dispatch(old(self)@, t, b@).1.len(),
            final(fifo_out_slot)@.len() == old(fifo_out_slot)@.len(),
            (forall|k: int| 0 <= k < j ==> final(fifo_out_slot)@[k] == old(fifo_out_slot)@[k]),
            (forall|l: int|
                0 <= l < spec_dispatch(old(self)@, t, b@).1.len()
                    ==> (#[trigger] final(fifo_out_slot)@[j + l])@
                    == spec_dispatch(old(self)@, t, b@).1[l]),
            (forall|k: int|
                j2 <= k < old(fifo_out_slot)@.len()
                    ==> final(fifo_out_slot)@[k] == old(fifo_out_slot)@[k]),
    {
        let mut j2: usize = j;
        if t == Tag::Odrchg {
            self.apply_rate_change(b);
            proof {
                crate::profile::lemma_resolve_bounds(old(self)@.fifo_ver);
            }
        } else if t == Tag::Ts {
            self.timestamp = FifoData::le_u32(b, 1);
        } else if t == Tag::Empty {
            // no sample and no state change
        } else {
            let compression_type = FifoData::get_compression_type(&t);
            match compression_type {
                CompressionType::Nc => {
                    let o = self.decode_nc(t, b);
                    fifo_out_slot[j2] = o;
                    j2 += 1;
                },
                CompressionType::NcT1 => {
                    let o = self.decode_nct(t, b, false);
                    fifo_out_slot[j2] = o;
                    j2 += 1;
                },
                CompressionType::NcT2 => {
                    let o = self.decode_nct(t, b, true);
                    fifo_out_slot[j2] = o;
                    j2 += 1;
                },
                CompressionType::Comp2x => {
                    let os = self.decode_c2(t, b);
                    fifo_out_slot[j2] = os.0;
                    fifo_out_slot[j2 + 1] = os.1;
                    j2 += 2;
                },
                CompressionType::Comp3x => {
                    let os = self.decode_c3(t, b);
                    fifo_out_slot[j2] = os.0;
                    fifo_out_slot[j2 + 1] = os.1;
                    fifo_out_slot[j2 + 2] = os.2;
                    j2 += 3;
                },
            }
        }
        j2
    }

    /// Decodes `stream_size` raw slots, appending typed samples to
    /// `fifo_out_slot` from index 0 and reporting in `out_slot_size` how
    /// many were written.  The whole call — final state, status, every
    /// sample written and every buffer entry left alone — equals
    /// `spec_run` of the model over the input slots.  Decoding stops at
    /// the first corrupt header, invalid tag, or slot whose samples would
    /// not fit; the state then reflects every slot before the failing one.
    #[verifier::rlimit(100)]
    pub fn decode(
        &mut self,
        fifo_out_slot: &mut [OutSlot],
        fifo_raw_slot: &[RawSlot],
        out_slot_size: &mut u16,
        stream_size: u16,
    ) -> (st: Status)
        requires
            spec_wf(old(self)@),
            stream_size as int <= fifo_raw_slot@.len(),
            old(fifo_out_slot)@.len() <= 0xFFFF,
        ensures
            ({
                let slots = fifo_raw_slot@.take(stream_size as int).map_values(
                    |r: RawSlot| r.fifo_data_out@,
                );
                let run = spec_run(old(self)@, slots, old(fifo_out_slot)@.len() as nat);
                &&& st == run.status
                &&& final(self)@ == run.state
                &&& spec_wf(final(self)@)
                &&& *final(out_slot_size) as int == run.outs.len()
                &&& final(fifo_out_slot)@.len() == old(fifo_out_slot)@.len()
                &&& (forall|k: int|
                    0 <= k < run.outs.len() ==> (#[trigger] final(fifo_out_slot)@[k])@
                        == run.outs[k])
                &&& (forall|k: int|
                    run.outs.len() <= k < old(fifo_out_slot)@.len() ==> final(fifo_out_slot)@[k]
                        == old(fifo_out_slot)@[k])
            }),
    {
        let ghost s0 = self@;
        let ghost slots = fifo_raw_slot@.take(stream_size as int).map_values(
            |r: RawSlot| r.fifo_data_out@,
        );
        let cap: usize = fifo_out_slot.len();
        let n: usize = stream_size as usize;
        let mut j: usize = 0;
        let mut i: usize = 0;

        proof {
            assert(slots.take(0) =~= Seq::<Seq<u8>>::empty());
            assert(fifo_out_slot@.take(0).map_values(|o: OutSlot| o@)
                =~= Seq::<SampleModel>::empty());
        }

        while i < n
            invariant
                spec_wf(self@),
                i <= n,
                n == stream_size as int,
                n <= fifo_raw_slot@.len(),
                cap == fifo_out_slot@.len(),
                cap <= 0xFFFF,
                fifo_out_slot@.len() == old(fifo_out_slot)@.len(),
                j <= cap,
                s0 == old(self)@,
                slots == fifo_raw_slot@.take(stream_size as int).map_values(
                    |r: RawSlot| r.fifo_data_out@,
                ),
                slots.len() == n,
                ({
                    let r = spec_run(s0, slots.take(i as int), cap as nat);
                    &&& r.status == Status::Success
                    &&& r.state == self@
                    &&& r.outs == fifo_out_slot@.take(j as int).map_values(|o: OutSlot| o@)
                    &&& r.outs.len() == j
                }),
                forall|k: int| j <= k < cap ==> fifo_out_slot@[k] == old(fifo_out_slot)@[k],
            decreases n - i,
        {
            let ghost pre = self@;
            let ghost jold = j as int;
            let ghost buf_before = fifo_out_slot@;
            let ghost outs_prefix = fifo_out_slot@.take(j as int).map_values(|o: OutSlot| o@);

            let arr: [u8; 7] = fifo_raw_slot[i].fifo_data_out;
            let b: &[u8] = arr.as_slice();
            proof {
                assert(slots[i as int] == fifo_raw_slot@[i as int].fifo_data_out@);
                assert(b@ == slots[i as int]);
            }

            let r = self.process_slot(fifo_out_slot, j, b);
            proof {
                lemma_run_step_extend(s0, slots, i as int, cap as nat, pre, outs_prefix);
            }
            if r.0 == Status::Success {
                j = r.1;
                proof {
                    match spec_step(pre, slots[i as int]) {
                        StepModel::Fail(e) => {
                            assert(false);
                        },
                        StepModel::Emit(s2, em) => {
                            assert(j == jold + em.len());
                            assert forall|m: int| 0 <= m < j as int implies (
                            fifo_out_slot@.take(j as int).map_values(|o: OutSlot| o@))[m] == (
                            outs_prefix + em)[m] by {
                                if m < jold {
                                    assert(fifo_out_slot@[m] == buf_before[m]);
                                } else {
                                    assert(fifo_out_slot@[jold + (m - jold)]@ == em[m - jold]);
                                }
                            }
                            assert(fifo_out_slot@.take(j as int).map_values(|o: OutSlot| o@)
                                =~= outs_prefix + em);
                        },
                    }
                }
                i += 1;
            } else {
                *out_slot_size = j as u16;
                return r.0;
            }
        }

        proof {
            assert(slots.take(n as int) =~= slots);
        }
        *out_slot_size = j as u16;
        Status::Success
    }

    /// Rebuilds the three 16-bit payload words from six raw bytes, high
    /// byte of each word first.
    pub fn bytes_to_i16_array(source_bytes: &[u8; 6], destination: &mut [i16; 3])
        ensures
            final(destination)@ == spec_axis_triple(source_bytes@),
    {
        let w0 = FifoData::combine_bytes_to_i16(source_bytes[0], source_bytes[1]);
        let w1 = FifoData::combine_bytes_to_i16(source_bytes[2], source_bytes[3]);
        let w2 = FifoData::combine_bytes_to_i16(source_bytes[4], source_bytes[5]);
        *destination = [w0, w1, w2];
        proof {
            assert(destination@ =~= spec_axis_triple(source_bytes@));
        }
    }

    /// 16-bit signed word built from the byte stored first (high order)
    /// and the byte stored second (low order).
    pub fn combine_bytes_to_i16(low_byte: u8, high_byte: u8) -> (r: i16)
        ensures
            r == spec_combine(low_byte, high_byte),
    {
        let v: u16 = (low_byte as u16) * 256 + (high_byte as u16);
        if v >= 32768 {
            (v as i32 - 0x10000) as i16
        } else {
            v as i16
        }
    }

    /// A slot tag is valid when it does not exceed the active profile's
    /// largest tag code.
    fn is_tag_valid(&self, tag: u8) -> (r: bool)
        ensures
            r == (tag <= spec_tag_valid_limit(self@.fifo_ver)),
    {
        let d = Device::profile(self.fifo_ver);
        tag <= d.tag_valid_limit
    }

    /// Sensor a record with the given tag belongs to.
    fn get_sensor_type(tag: &Tag) -> (r: SensorType)
        ensures
            r == spec_sensor_type(*tag),
    {
        match tag {
            Tag::Gy => SensorType::Gyroscope,
            Tag::Xl => SensorType::Accelerometer,
            Tag::Temp => SensorType::Temperature,
            Tag::ExtSens0 => SensorType::ExtSensor0,
            Tag::ExtSens1 => SensorType::ExtSensor1,
            Tag::ExtSens2 => SensorType::ExtSensor2,
            Tag::ExtSens3 => SensorType::ExtSensor3,
            Tag::XlUncompressedT2 => SensorType::Accelerometer,
            Tag::XlUncompressedT1 => SensorType::Accelerometer,
            Tag::XlCompressed2x => SensorType::Accelerometer,
            Tag::XlCompressed3x => SensorType::Accelerometer,
            Tag::GyUncompressedT2 => SensorType::Gyroscope,
            Tag::GyUncompressedT1 => SensorType::Gyroscope,
            Tag::GyCompressed2x => SensorType::Gyroscope,
            Tag::GyCompressed3x => SensorType::Gyroscope,
            Tag::StepCounter => SensorType::StepCounter,
            Tag::GameRv => SensorType::GameRv6x,
            Tag::GeomRv => SensorType::GeomRv6x,
            Tag::NormRv => SensorType::Rv9x,
            Tag::GyroBias => SensorType::GyroBias,
            Tag::Gravity => SensorType::Gravity,
            Tag::MagCal => SensorType::MagCalib,
            Tag::ExtSensNack => SensorType::ExtSensorNack,
            Tag::MlcResult => SensorType::MlcResult,
            Tag::MlcFilter => SensorType::MlcFilter,
            Tag::MlcFeature => SensorType::MlcFeature,
            Tag::DualcXl => SensorType::DualAccel,
            Tag::EisGy => SensorType::EisGyro,
            _ => SensorType::NoSensor,
        }
    }

    /// Compression scheme of a record with the given tag.
    fn get_compression_type(tag: &Tag) -> (r: CompressionType)
        ensures
            r == spec_compression_type(*tag),
    {
        match tag {
            Tag::XlUncompressedT2 | Tag::GyUncompressedT2 => CompressionType::NcT2,
            Tag::XlUncompressedT1 | Tag::GyUncompressedT1 => CompressionType::NcT1,
            Tag::XlCompressed2x | Tag::GyCompressed2x => CompressionType::Comp2x,
            Tag::XlCompressed3x | Tag::GyCompressed3x => CompressionType::Comp3x,
            _ => CompressionType::Nc,
        }
    }

    /// A byte has an even number of set bits.
    fn has_even_parity(x: u8) -> (r: bool)
        ensures
            r == spec_even_parity(x),
    {
        let c: u32 = ((x & 1) as u32) + (((x >> 1) & 1) as u32) + (((x >> 2) & 1) as u32) + (((x
            >> 3) & 1) as u32) + (((x >> 4) & 1) as u32) + (((x >> 5) & 1) as u32) + (((x >> 6)
            & 1) as u32) + (((x >> 7) & 1) as u32);
        c % 2 == 0
    }

    /// Decodes the six signed-byte deltas of a Delta-2-sample payload.
    fn get_diff_2x(diff: &mut [i16; 6], input: &[u8])
        requires
            input@.len() >= 6,
        ensures
            final(diff)@ == spec_diff2x(input@),
    {
        let d0 = FifoData::signed_byte(input[0]);
        let d1 = FifoData::signed_byte(input[1]);
        let d2 = FifoData::signed_byte(input[2]);
        let d3 = FifoData::signed_byte(input[3]);
        let d4 = FifoData::signed_byte(input[4]);
        let d5 = FifoData::signed_byte(input[5]);
        *diff = [d0, d1, d2, d3, d4, d5];
        proof {
            assert(diff@ =~= spec_diff2x(input@));
        }
    }

    /// A payload byte as a signed delta.
    fn signed_byte(b: u8) -> (r: i16)
        ensures
            r == spec_sbyte(b),
    {
        if b < 128 {
            b as i16
        } else {
            b as i16 - 256
        }
    }

    /// Decodes the nine packed 5-bit deltas of a Delta-3-sample payload.
    fn get_diff_3x(diff: &mut [i16; 9], input: &[u8])
        requires
            input@.len() >= 6,
        ensures
            final(diff)@ == spec_diff3x(input@),
    {
        let w0: u16 = (input[0] as u16) + (input[1] as u16) * 256;
        let w1: u16 = (input[2] as u16) + (input[3] as u16) * 256;
        let w2: u16 = (input[4] as u16) + (input[5] as u16) * 256;
        let d = [
            FifoData::field5(w0, 0),
            FifoData::field5(w0, 1),
            FifoData::field5(w0, 2),
            FifoData::field5(w1, 0),
            FifoData::field5(w1, 1),
            FifoData::field5(w1, 2),
            FifoData::field5(w2, 0),
            FifoData::field5(w2, 1),
            FifoData::field5(w2, 2),
        ];
        *diff = d;
        proof {
            assert(diff@ =~= spec_diff3x(input@));
        }
    }

    /// 5-bit field `j` of a packed delta word, sign-extended.
    fn field5(w: u16, j: u8) -> (r: i16)
        requires
            j <= 2,
        ensures
            r == spec_field5(w, j as int),
    {
        let u: u16 = if j == 0 {
            w & 0x1F
        } else if j == 1 {
            (w >> 5) & 0x1F
        } else {
            (w >> 10) & 0x1F
        };
        proof {
            assert((w & 0x1F) < 32 && ((w >> 5) & 0x1F) < 32 && ((w >> 10) & 0x1F) < 32)
                by (bit_vector);
        }
        if u < 16 {
            u as i16
        } else {
            u as i16 - 32
        }
    }
}

impl FifoData {
    /// Number of output samples a record with the given tag contributes.
    fn sample_count(t: &Tag) -> (k: usize)
        ensures
            k == spec_sample_count(*t),
    {
        if *t == Tag::Empty || *t == Tag::Ts || *t == Tag::Odrchg {
            0
        } else {
            match FifoData::get_compression_type(t) {
                CompressionType::Nc => 1,
                CompressionType::NcT1 => 1,
                CompressionType::NcT2 => 1,
                CompressionType::Comp2x => 2,
                CompressionType::Comp3x => 3,
            }
        }
    }

    /// 32-bit little-endian value of four payload bytes.
    fn le_u32(b: &[u8], off: usize) -> (r: u32)
        requires
            off + 4 <= b@.len(),
        ensures
            r == spec_le32(
                b@[off as int],
                b@[off as int + 1],
                b@[off as int + 2],
                b@[off as int + 3],
            ),
    {
        (b[off] as u32) + (b[off + 1] as u32) * 0x100 + (b[off + 2] as u32) * 0x1_0000 + (b[off
            + 3] as u32) * 0x100_0000
    }

    /// Applies a rate-change record: stashes the old per-channel
    /// intervals, re-resolves all three from the newly selected rates,
    /// and raises both rate-changed flags.
    fn apply_rate_change(&mut self, b: &[u8])
        requires
            b@.len() == 7,
        ensures
            final(self)@ == spec_apply_rate_change(old(self)@, b@),
    {
        let b6 = b[6];
        let b4 = b[4];
        let bdr_acc_cfg = (b6 & u8::from(BdrMask::Xl)) >> u8::from(BdrShift::Xl);
        let bdr_gyr_cfg = (b6 & u8::from(BdrMask::Gy)) >> u8::from(BdrShift::Gy);
        let bdr_vsens_cfg = (b4 & u8::from(BdrMask::Vsens)) >> u8::from(BdrShift::Vsens);
        proof {
            assert((b6 & 0x0F) >> 0 == b6 & 0x0F && (b6 & 0x0F) < 16 && ((b6 & 0xF0) >> 4) < 16
                && (b4 & 0x0F) >> 0 == b4 & 0x0F && (b4 & 0x0F) < 16) by (bit_vector);
        }
        let d = Device::profile(self.fifo_ver);
        let bdr_xl = d.bdr_acc[bdr_acc_cfg as usize];
        let bdr_gy = d.bdr_gyr[bdr_gyr_cfg as usize];
        let bdr_vsens = d.bdr_vsens[bdr_vsens_cfg as usize];
        let bdr_max = crate::max(crate::max(bdr_xl, bdr_gy), bdr_vsens);

        self.dtime_xl_old = self.dtime_xl;
        self.dtime_gy_old = self.dtime_gy;
        self.dtime_min = d.dtime[bdr_get_index(&d.bdr_acc, bdr_max)];
        self.dtime_xl = d.dtime[bdr_get_index(&d.bdr_acc, bdr_xl)];
        self.dtime_gy = d.dtime[bdr_get_index(&d.bdr_gyr, bdr_gy)];
        self.bdr_chg_xl_flag = 1;
        self.bdr_chg_gy_flag = 1;
        proof {
            assert(self@ =~= spec_apply_rate_change(old(self)@, b@));
        }
    }

    /// Decodes an uncompressed record at the running clock.
    fn decode_nc(&mut self, t: Tag, b: &[u8]) -> (o: OutSlot)
        requires
            b@.len() == 7,
            spec_compression_type(t) == CompressionType::Nc,
            t != Tag::Empty && t != Tag::Ts && t != Tag::Odrchg,
        ensures
            final(self)@ == spec_decode_nc(old(self)@, t, b@).0,
            o@ == spec_decode_nc(old(self)@, t, b@).1[0],
    {
        let st = FifoData::get_sensor_type(&t);
        let ts: u32 = if t == Tag::StepCounter || t == Tag::MlcResult {
            FifoData::le_u32(b, 3)
        } else {
            self.timestamp
        };
        let mut sd = SensorData { data: [0i16; 3] };
        sd.from_u8_arr(vstd::slice::slice_subrange(b, 1, 7));
        let o = OutSlot { timestamp: ts, sensor_tag: st, sensor_data: sd };
        if st == SensorType::Accelerometer {
            self.last_data_xl = sd.data;
            self.last_timestamp_xl = self.timestamp;
            self.bdr_chg_xl_flag = 0;
        }
        if st == SensorType::Gyroscope {
            self.last_data_gy = sd.data;
            self.last_timestamp_gy = self.timestamp;
            self.bdr_chg_gy_flag = 0;
        }
        proof {
            assert(self@ =~= spec_decode_nc(old(self)@, t, b@).0);
            assert(o@ =~= spec_decode_nc(old(self)@, t, b@).1[0]);
        }
        o
    }

    /// Decodes an uncompressed record one (`two == false`) or two
    /// (`two == true`) intervals in the past.
    fn decode_nct(&mut self, t: Tag, b: &[u8], two: bool) -> (o: OutSlot)
        requires
            b@.len() == 7,
            spec_sensor_type(t) == SensorType::Accelerometer || spec_sensor_type(t)
                == SensorType::Gyroscope,
        ensures
            final(self)@ == spec_decode_nct(old(self)@, t, b@, two).0,
            o@ == spec_decode_nct(old(self)@, t, b@, two).1[0],
    {
        let st = FifoData::get_sensor_type(&t);
        let mut sd = SensorData { data: [0i16; 3] };
        sd.from_u8_arr(vstd::slice::slice_subrange(b, 1, 7));
        let last_timestamp: u32;
        if st == SensorType::Accelerometer {
            last_timestamp = if self.bdr_chg_xl_flag == 1 {
                self.last_timestamp_xl.wrapping_add(self.dtime_xl_old)
            } else if two {
                self.timestamp.wrapping_sub(self.dtime_xl.wrapping_mul(2))
            } else {
                self.timestamp.wrapping_sub(self.dtime_xl)
            };
            self.last_data_xl = sd.data;
            self.last_timestamp_xl = last_timestamp;
        } else {
            last_timestamp = if self.bdr_chg_gy_flag == 1 {
                self.last_timestamp_gy.wrapping_add(self.dtime_gy_old)
            } else if two {
                self.timestamp.wrapping_sub(self.dtime_gy.wrapping_mul(2))
            } else {
                self.timestamp.wrapping_sub(self.dtime_gy)
            };
            self.last_data_gy = sd.data;
            self.last_timestamp_gy = last_timestamp;
        }
        let o = OutSlot { timestamp: last_timestamp, sensor_tag: st, sensor_data: sd };
        proof {
            assert(self@ =~= spec_decode_nct(old(self)@, t, b@, two).0);
            assert(o@ =~= spec_decode_nct(old(self)@, t, b@, two).1[0]);
        }
        o
    }

    /// Decodes a Delta-2-sample record: two chained signed-byte deltas
    /// off the channel's last sample.
    fn decode_c2(&mut self, t: Tag, b: &[u8]) -> (os: (OutSlot, OutSlot))
        requires
            b@.len() == 7,
            spec_sensor_type(t) == SensorType::Accelerometer || spec_sensor_type(t)
                == SensorType::Gyroscope,
        ensures
            final(self)@ == spec_decode_c2(old(self)@, t, b@).0,
            os.0@ == spec_decode_c2(old(self)@, t, b@).1[0],
            os.1@ == spec_decode_c2(old(self)@, t, b@).1[1],
    {
        let st = FifoData::get_sensor_type(&t);
        let mut diff = [0i16; 6];
        FifoData::get_diff_2x(&mut diff, vstd::slice::slice_subrange(b, 1, 7));
        let o1: OutSlot;
        let o2: OutSlot;
        if st == SensorType::Accelerometer {
            let data1 = [
                self.last_data_xl[0].wrapping_add(diff[0]),
                self.last_data_xl[1].wrapping_add(diff[1]),
                self.last_data_xl[2].wrapping_add(diff[2]),
            ];
            let ts1 = self.timestamp.wrapping_sub(self.dtime_xl.wrapping_mul(2));
            self.last_data_xl = data1;
            let data2 = [
                data1[0].wrapping_add(diff[3]),
                data1[1].wrapping_add(diff[4]),
                data1[2].wrapping_add(diff[5]),
            ];
            let ts2 = self.timestamp.wrapping_sub(self.dtime_xl);
            self.last_data_xl = data2;
            self.last_timestamp_xl = ts2;
            o1 = OutSlot { timestamp: ts1, sensor_tag: st, sensor_data: SensorData { data: data1 } };
            o2 = OutSlot { timestamp: ts2, sensor_tag: st, sensor_data: SensorData { data: data2 } };
        } else {
            let data1 = [
                self.last_data_gy[0].wrapping_add(diff[0]),
                self.last_data_gy[1].wrapping_add(diff[1]),
                self.last_data_gy[2].wrapping_add(diff[2]),
            ];
            let ts1 = self.timestamp.wrapping_sub(self.dtime_gy.wrapping_mul(2));
            self.last_data_gy = data1;
            let data2 = [
                data1[0].wrapping_add(diff[3]),
                data1[1].wrapping_add(diff[4]),
                data1[2].wrapping_add(diff[5]),
            ];
            let ts2 = self.timestamp.wrapping_sub(self.dtime_gy);
            self.last_data_gy = data2;
            self.last_timestamp_gy = ts2;
            o1 = OutSlot { timestamp: ts1, sensor_tag: st, sensor_data: SensorData { data: data1 } };
            o2 = OutSlot { timestamp: ts2, sensor_tag: st, sensor_data: SensorData { data: data2 } };
        }
        proof {
            assert(diff@.len() == 6);
            assert(self@.last_data_xl =~= spec_decode_c2(old(self)@, t, b@).0.last_data_xl);
            assert(self@.last_data_gy =~= spec_decode_c2(old(self)@, t, b@).0.last_data_gy);
            assert(self@ =~= spec_decode_c2(old(self)@, t, b@).0);
            assert(o1@ =~= spec_decode_c2(old(self)@, t, b@).1[0]);
            assert(o2@ =~= spec_decode_c2(old(self)@, t, b@).1[1]);
        }
        (o1, o2)
    }

    /// Decodes a Delta-3-sample record: nine packed 5-bit deltas chained
    /// within the slot.
    #[verifier::rlimit(100)]
    #[verifier::spinoff_prover]
    fn decode_c3(&mut self, t: Tag, b: &[u8]) -> (os: (OutSlot, OutSlot, OutSlot))
        requires
            b@.len() == 7,
            spec_sensor_type(t) == SensorType::Accelerometer || spec_sensor_type(t)
                == SensorType::Gyroscope,
        ensures
            final(self)@ == spec_decode_c3(old(self)@, t, b@).0,
            os.0@ == spec_decode_c3(old(self)@, t, b@).1[0],
            os.1@ == spec_decode_c3(old(self)@, t, b@).1[1],
            os.2@ == spec_decode_c3(old(self)@, t, b@).1[2],
    {
        let st = FifoData::get_sensor_type(&t);
        let mut diff = [0i16; 9];
        FifoData::get_diff_3x(&mut diff, vstd::slice::slice_subrange(b, 1, 7));
        let o1: OutSlot;
        let o2: OutSlot;
        let o3: OutSlot;
        if st == SensorType::Accelerometer {
            let data1 = [
                self.last_data_xl[0].wrapping_add(diff[0]),
                self.last_data_xl[1].wrapping_add(diff[1]),
                self.last_data_xl[2].wrapping_add(diff[2]),
            ];
            let ts1 = self.timestamp.wrapping_sub(self.dtime_xl.wrapping_mul(2));
            self.last_data_xl = data1;
            let data2 = [
                data1[0].wrapping_add(diff[3]),
                data1[1].wrapping_add(diff[4]),
                data1[2].wrapping_add(diff[5]),
            ];
            let ts2 = self.timestamp.wrapping_sub(self.dtime_xl);
            self.last_data_xl = data2;
            self.last_timestamp_xl = self.timestamp;
            let data3 = [
                data2[0].wrapping_add(diff[6]),
                data2[1].wrapping_add(diff[7]),
                data2[2].wrapping_add(diff[8]),
            ];
            self.last_data_xl = data3;
            self.last_timestamp_xl = self.timestamp;
            o1 = OutSlot { timestamp: ts1, sensor_tag: st, sensor_data: SensorData { data: data1 } };
            o2 = OutSlot { timestamp: ts2, sensor_tag: st, sensor_data: SensorData { data: data2 } };
            o3 = OutSlot {
                timestamp: self.timestamp,
                sensor_tag: st,
                sensor_data: SensorData { data: data3 },
            };
        } else {
            let data1 = [
                self.last_data_gy[0].wrapping_add(diff[0]),
                self.last_data_gy[1].wrapping_add(diff[1]),
                self.last_data_gy[2].wrapping_add(diff[2]),
            ];
            let ts1 = self.timestamp.wrapping_sub(self.dtime_gy.wrapping_mul(2));
            self.last_data_gy = data1;
            let data2 = [
                data1[0].wrapping_add(diff[3]),
                data1[1].wrapping_add(diff[4]),
                data1[2].wrapping_add(diff[5]),
            ];
            let ts2 = self.timestamp.wrapping_sub(self.dtime_gy);
            self.last_data_gy = data2;
            self.last_timestamp_gy = self.timestamp;
            let data3 = [
                data2[0].wrapping_add(diff[6]),
                data2[1].wrapping_add(diff[7]),
                data2[2].wrapping_add(diff[8]),
            ];
            self.last_data_gy = data3;
            self.last_timestamp_gy = self.timestamp;
            o1 = OutSlot { timestamp: ts1, sensor_tag: st, sensor_data: SensorData { data: data1 } };
            o2 = OutSlot { timestamp: ts2, sensor_tag: st, sensor_data: SensorData { data: data2 } };
            o3 = OutSlot {
                timestamp: self.timestamp,
                sensor_tag: st,
                sensor_data: SensorData { data: data3 },
            };
        }
        proof {
            assert(self@.last_data_xl =~= spec_decode_c3(old(self)@, t, b@).0.last_data_xl);
            assert(self@.last_data_gy =~= spec_decode_c3(old(self)@, t, b@).0.last_data_gy);
            assert(self@ =~= spec_decode_c3(old(self)@, t, b@).0);
            assert(o1@ =~= spec_decode_c3(old(self)@, t, b@).1[0]);
            assert(o2@ =~= spec_decode_c3(old(self)@, t, b@).1[1]);
            assert(o3@ =~= spec_decode_c3(old(self)@, t, b@).1[2]);
        }
        (o1, o2, o3)
    }
}

} // verus!
