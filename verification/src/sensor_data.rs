//! Generic 3-word payload storage and its typed views.
//!
//! Every decoded sample carries three 16-bit signed words.  Depending on the
//! sensor type they are an axis triple, a temperature, a step count, a
//! quaternion, and so on; the conversion methods here give the words their
//! semantic names.

use vstd::prelude::*;

verus! {

/// Three 16-bit signed payload words of one decoded sample.
#[derive(Clone, Copy, Debug)]
pub struct SensorData {
    pub data: [i16; 3],
}

/// 16-bit word built from a high byte and a low byte, reinterpreted as
/// signed.  FIFO payloads store the high-order byte first.
pub open spec fn spec_combine(high: u8, low: u8) -> i16 {
    if high >= 128 {
        (high * 256 + low - 0x10000) as i16
    } else {
        (high * 256 + low) as i16
    }
}

/// Axis triple decoded from six payload bytes: three words, high byte first.
pub open spec fn spec_axis_triple(b: Seq<u8>) -> Seq<i16>
    recommends
        b.len() >= 6,
{
    seq![spec_combine(b[0], b[1]), spec_combine(b[2], b[3]), spec_combine(b[4], b[5])]
}

/// Unsigned 16-bit carrier of a signed payload word.
pub open spec fn spec_word_bits(x: i16) -> u16 {
    if x >= 0 {
        x as u16
    } else {
        (x + 0x10000) as u16
    }
}

/// Low byte of a payload word's 16-bit carrier.
pub open spec fn spec_word_lo(x: i16) -> u8 {
    (spec_word_bits(x) % 256) as u8
}

/// High byte of a payload word's 16-bit carrier.
pub open spec fn spec_word_hi(x: i16) -> u8 {
    (spec_word_bits(x) / 256) as u8
}

/// Unsigned 16-bit carrier of a signed payload word.
fn word_bits(x: i16) -> (r: u16)
    ensures
        r == spec_word_bits(x),
{
    if x >= 0 {
        x as u16
    } else {
        (x as i32 + 0x10000) as u16
    }
}

impl SensorData {
    /// Fills the three payload words from six raw bytes, high byte first.
    pub fn from_u8_arr(&mut self, data: &[u8])
        requires
            data@.len() >= 6,
        ensures
            final(self).data@ == spec_axis_triple(data@),
    {
        let w0 = SensorData::combine(data[0], data[1]);
        let w1 = SensorData::combine(data[2], data[3]);
        let w2 = SensorData::combine(data[4], data[5]);
        self.data = [w0, w1, w2];
        proof {
            assert(self.data@ =~= spec_axis_triple(data@));
        }
    }

    /// 16-bit signed word built from a high byte and a low byte.
    fn combine(high: u8, low: u8) -> (r: i16)
        ensures
            r == spec_combine(high, low),
    {
        let v: u16 = (high as u16) * 256 + (low as u16);
        if v >= 32768 {
            (v as i32 - 0x10000) as i16
        } else {
            v as i16
        }
    }

    /// The payload words as named accelerometer/gyroscope axes.
    pub fn to_axis(&self) -> (r: AxisData)
        ensures
            r.x == self.data@[0],
            r.y == self.data@[1],
            r.z == self.data@[2],
    {
        AxisData { x: self.data[0], y: self.data[1], z: self.data[2] }
    }

    /// The first payload word as a temperature reading.
    pub fn to_temperature(&self) -> (r: TemperatureData)
        ensures
            r.temp == self.data@[0],
    {
        TemperatureData { temp: self.data[0] }
    }

    /// Step count plus the four bytes of the embedded step timestamp.
    pub fn to_step_counter(&self) -> (r: StepCounterData)
        ensures
            r.steps == spec_word_bits(self.data@[0]),
            r.steps_t@ == seq![
                spec_word_lo(self.data@[1]),
                spec_word_hi(self.data@[1]),
                spec_word_lo(self.data@[2]),
                spec_word_hi(self.data@[2]),
            ],
    {
        let w1 = word_bits(self.data[1]);
        let w2 = word_bits(self.data[2]);
        let r = StepCounterData {
            steps: word_bits(self.data[0]),
            steps_t: [(w1 % 256) as u8, (w1 / 256) as u8, (w2 % 256) as u8, (w2 / 256) as u8],
        };
        proof {
            assert(r.steps_t@ =~= seq![
                spec_word_lo(self.data@[1]),
                spec_word_hi(self.data@[1]),
                spec_word_lo(self.data@[2]),
                spec_word_hi(self.data@[2]),
            ]);
        }
        r
    }

    /// The payload words as quaternion components.
    pub fn to_quaternion(&self) -> (r: QuaternionData)
        ensures
            r.qx == spec_word_bits(self.data@[0]),
            r.qy == spec_word_bits(self.data@[1]),
            r.qz == spec_word_bits(self.data@[2]),
    {
        QuaternionData {
            qx: word_bits(self.data[0]),
            qy: word_bits(self.data[1]),
            qz: word_bits(self.data[2]),
        }
    }

    /// The not-acknowledged flag of an external-sensor record.
    pub fn to_ext_sensor_nack(&self) -> (r: ExtSensorNackData)
        ensures
            r.nack == spec_word_lo(self.data@[0]),
    {
        let w0 = word_bits(self.data[0]);
        ExtSensorNackData { nack: (w0 % 256) as u8 }
    }

    /// Machine-learning-core result byte, source index, and the four bytes
    /// of the embedded result timestamp.
    pub fn to_mlc_result(&self) -> (r: MlcResultData)
        ensures
            r.mlc_res == spec_word_lo(self.data@[0]),
            r.mlc_idx == spec_word_hi(self.data@[0]),
            r.mlc_t@ == seq![
                spec_word_lo(self.data@[1]),
                spec_word_hi(self.data@[1]),
                spec_word_lo(self.data@[2]),
                spec_word_hi(self.data@[2]),
            ],
    {
        let w0 = word_bits(self.data[0]);
        let w1 = word_bits(self.data[1]);
        let w2 = word_bits(self.data[2]);
        let r = MlcResultData {
            mlc_res: (w0 % 256) as u8,
            mlc_idx: (w0 / 256) as u8,
            mlc_t: [(w1 % 256) as u8, (w1 / 256) as u8, (w2 % 256) as u8, (w2 / 256) as u8],
        };
        proof {
            assert(r.mlc_t@ =~= seq![
                spec_word_lo(self.data@[1]),
                spec_word_hi(self.data@[1]),
                spec_word_lo(self.data@[2]),
                spec_word_hi(self.data@[2]),
            ]);
        }
        r
    }

    /// Machine-learning-core filter/feature value and identifier words.
    pub fn to_mlc_filter_feature(&self) -> (r: MlcFilterFeatureData)
        ensures
            r.mlc_value == spec_word_bits(self.data@[0]),
            r.mlc_id == spec_word_bits(self.data@[1]),
            r.reserved == spec_word_bits(self.data@[2]),
    {
        MlcFilterFeatureData {
            mlc_value: word_bits(self.data[0]),
            mlc_id: word_bits(self.data[1]),
            reserved: word_bits(self.data[2]),
        }
    }
}

/// Accelerometer or gyroscope axis view of a payload.
#[derive(Clone, Copy, Debug, PartialEq, Eq, Structural)]
pub struct AxisData {
    pub x: i16,
    pub y: i16,
    pub z: i16,
}

/// Temperature view of a payload.
#[derive(Clone, Copy, Debug, PartialEq, Eq, Structural)]
pub struct TemperatureData {
    pub temp: i16,
}

/// Step-counter view of a payload: count plus embedded timestamp bytes.
#[derive(Clone, Copy, Debug)]
pub struct StepCounterData {
    pub steps: u16,
    pub steps_t: [u8; 4],
}

/// Quaternion view of a payload.
#[derive(Clone, Copy, Debug, PartialEq, Eq, Structural)]
pub struct QuaternionData {
    pub qx: u16,
    pub qy: u16,
    pub qz: u16,
}

/// External-sensor not-acknowledged view of a payload.
#[derive(Clone, Copy, Debug, PartialEq, Eq, Structural)]
pub struct ExtSensorNackData {
    pub nack: u8,
}

/// Machine-learning-core result view of a payload.
#[derive(Clone, Copy, Debug)]
pub struct MlcResultData {
    pub mlc_res: u8,
    pub mlc_idx: u8,
    pub mlc_t: [u8; 4],
}

/// Machine-learning-core filter/feature view of a payload.
#[derive(Clone, Copy, Debug, PartialEq, Eq, Structural)]
pub struct MlcFilterFeatureData {
    pub mlc_value: u16,
    pub mlc_id: u16,
    pub reserved: u16,
}

} // verus!
