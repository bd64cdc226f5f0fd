//! Slot tags, sensor types and the header bit layout.
//!
//! Byte 0 of every 7-byte FIFO slot holds a 5-bit tag (bits 7..3), a 2-bit
//! rolling counter (bits 2..1) and, on the legacy protocol, a parity bit
//! (bit 0).  The tag selects both the sensor a record belongs to and the
//! compression scheme of its payload.

use vstd::prelude::*;

verus! {

/// Record kind carried in the 5-bit tag field of a slot header.
#[derive(Clone, Copy, Debug, PartialEq, Eq, Structural)]
pub enum Tag {
    Empty,
    Gy,
    Xl,
    Temp,
    Ts,
    Odrchg,
    XlUncompressedT2,
    XlUncompressedT1,
    XlCompressed2x,
    XlCompressed3x,
    GyUncompressedT2,
    GyUncompressedT1,
    GyCompressed2x,
    GyCompressed3x,
    ExtSens0,
    ExtSens1,
    ExtSens2,
    ExtSens3,
    StepCounter,
    GameRv,
    GeomRv,
    NormRv,
    GyroBias,
    Gravity,
    MagCal,
    ExtSensNack,
    MlcResult,
    MlcFilter,
    MlcFeature,
    DualcXl,
    EisGy,
}

/// Sensor a decoded sample belongs to.
#[derive(Clone, Copy, Debug, PartialEq, Eq, Structural)]
pub enum SensorType {
    Gyroscope,
    Accelerometer,
    Temperature,
    ExtSensor0,
    ExtSensor1,
    ExtSensor2,
    ExtSensor3,
    StepCounter,
    GameRv6x,
    GeomRv6x,
    Rv9x,
    GyroBias,
    Gravity,
    MagCalib,
    ExtSensorNack,
    MlcResult,
    MlcFilter,
    MlcFeature,
    DualAccel,
    EisGyro,
    NoSensor,
}

/// Compression scheme of a slot's payload, derived from its tag.
#[derive(Clone, Copy, Debug, PartialEq, Eq, Structural)]
pub enum CompressionType {
    /// One uncompressed sample at the running clock.
    Nc,
    /// One uncompressed sample, one interval in the past.
    NcT1,
    /// One uncompressed sample, two intervals in the past.
    NcT2,
    /// Two samples as chained signed-byte deltas.
    Comp2x,
    /// Three samples as chained packed 5-bit deltas.
    Comp3x,
}

/// Bit masks that select the rate-selector nibbles of a rate-change record.
#[derive(Clone, Copy, Debug, PartialEq, Eq, Structural)]
pub enum BdrMask {
    Xl,
    Gy,
    Vsens,
}

impl From<BdrMask> for u8 {
    fn from(value: BdrMask) -> (r: u8) {
        match value {
            BdrMask::Xl => 0x0F,
            BdrMask::Gy => 0xF0,
            BdrMask::Vsens => 0x0F,
        }
    }
}

impl vstd::std_specs::convert::FromSpecImpl<BdrMask> for u8 {
    open spec fn obeys_from_spec() -> bool {
        true
    }

    open spec fn from_spec(value: BdrMask) -> u8 {
        match value {
            BdrMask::Xl => 0x0F,
            BdrMask::Gy => 0xF0,
            BdrMask::Vsens => 0x0F,
        }
    }
}

/// Shift amounts that align the rate-selector nibbles of a rate-change record.
#[derive(Clone, Copy, Debug, PartialEq, Eq, Structural)]
pub enum BdrShift {
    Xl,
    Gy,
    Vsens,
}

impl From<BdrShift> for u8 {
    fn from(value: BdrShift) -> (r: u8) {
        match value {
            BdrShift::Xl => 0x00,
            BdrShift::Gy => 0x04,
            BdrShift::Vsens => 0x00,
        }
    }
}

impl vstd::std_specs::convert::FromSpecImpl<BdrShift> for u8 {
    open spec fn obeys_from_spec() -> bool {
        true
    }

    open spec fn from_spec(value: BdrShift) -> u8 {
        match value {
            BdrShift::Xl => 0x00,
            BdrShift::Gy => 0x04,
            BdrShift::Vsens => 0x00,
        }
    }
}

/// Bit masks that select the fields of a slot header byte.
#[derive(Clone, Copy, Debug, PartialEq, Eq, Structural)]
pub enum TagMask {
    Counter,
    Sensor,
}

impl From<TagMask> for u8 {
    fn from(value: TagMask) -> (r: u8) {
        match value {
            TagMask::Counter => 0x06,
            TagMask::Sensor => 0xF8,
        }
    }
}

impl vstd::std_specs::convert::FromSpecImpl<TagMask> for u8 {
    open spec fn obeys_from_spec() -> bool {
        true
    }

    open spec fn from_spec(value: TagMask) -> u8 {
        match value {
            TagMask::Counter => 0x06,
            TagMask::Sensor => 0xF8,
        }
    }
}

/// Shift amounts that align the fields of a slot header byte.
#[derive(Clone, Copy, Debug, PartialEq, Eq, Structural)]
pub enum TagShift {
    Counter,
    Sensor,
}

impl From<TagShift> for u8 {
    fn from(value: TagShift) -> (r: u8) {
        match value {
            TagShift::Counter => 0x01,
            TagShift::Sensor => 0x03,
        }
    }
}

impl vstd::std_specs::convert::FromSpecImpl<TagShift> for u8 {
    open spec fn obeys_from_spec() -> bool {
        true
    }

    open spec fn from_spec(value: TagShift) -> u8 {
        match value {
            TagShift::Counter => 0x01,
            TagShift::Sensor => 0x03,
        }
    }
}

/// Numeric code of a tag as it appears in the 5-bit header field.
pub open spec fn tag_code(t: Tag) -> u8 {
    match t {
        Tag::Empty => 0x00,
        Tag::Gy => 0x01,
        Tag::Xl => 0x02,
        Tag::Temp => 0x03,
        Tag::Ts => 0x04,
        Tag::Odrchg => 0x05,
        Tag::XlUncompressedT2 => 0x06,
        Tag::XlUncompressedT1 => 0x07,
        Tag::XlCompressed2x => 0x08,
        Tag::XlCompressed3x => 0x09,
        Tag::GyUncompressedT2 => 0x0A,
        Tag::GyUncompressedT1 => 0x0B,
        Tag::GyCompressed2x => 0x0C,
        Tag::GyCompressed3x => 0x0D,
        Tag::ExtSens0 => 0x0E,
        Tag::ExtSens1 => 0x0F,
        Tag::ExtSens2 => 0x10,
        Tag::ExtSens3 => 0x11,
        Tag::StepCounter => 0x12,
        Tag::GameRv => 0x13,
        Tag::GeomRv => 0x14,
        Tag::NormRv => 0x15,
        Tag::GyroBias => 0x16,
        Tag::Gravity => 0x17,
        Tag::MagCal => 0x18,
        Tag::ExtSensNack => 0x19,
        Tag::MlcResult => 0x1A,
        Tag::MlcFilter => 0x1B,
        Tag::MlcFeature => 0x1C,
        Tag::DualcXl => 0x1D,
        Tag::EisGy => 0x1E,
    }
}

/// Tag named by a 5-bit header code, if the code is recognized.
pub open spec fn spec_tag_of_code(code: u8) -> Option<Tag> {
    if code == 0x00 {
        Some(Tag::Empty)
    } else if code == 0x01 {
        Some(Tag::Gy)
    } else if code == 0x02 {
        Some(Tag::Xl)
    } else if code == 0x03 {
        Some(Tag::Temp)
    } else if code == 0x04 {
        Some(Tag::Ts)
    } else if code == 0x05 {
        Some(Tag::Odrchg)
    } else if code == 0x06 {
        Some(Tag::XlUncompressedT2)
    } else if code == 0x07 {
        Some(Tag::XlUncompressedT1)
    } else if code == 0x08 {
        Some(Tag::XlCompressed2x)
    } else if code == 0x09 {
        Some(Tag::XlCompressed3x)
    } else if code == 0x0A {
        Some(Tag::GyUncompressedT2)
    } else if code == 0x0B {
        Some(Tag::GyUncompressedT1)
    } else if code == 0x0C {
        Some(Tag::GyCompressed2x)
    } else if code == 0x0D {
        Some(Tag::GyCompressed3x)
    } else if code == 0x0E {
        Some(Tag::ExtSens0)
    } else if code == 0x0F {
        Some(Tag::ExtSens1)
    } else if code == 0x10 {
        Some(Tag::ExtSens2)
    } else if code == 0x11 {
        Some(Tag::ExtSens3)
    } else if code == 0x12 {
        Some(Tag::StepCounter)
    } else if code == 0x13 {
        Some(Tag::GameRv)
    } else if code == 0x14 {
        Some(Tag::GeomRv)
    } else if code == 0x15 {
        Some(Tag::NormRv)
    } else if code == 0x16 {
        Some(Tag::GyroBias)
    } else if code == 0x17 {
        Some(Tag::Gravity)
    } else if code == 0x18 {
        Some(Tag::MagCal)
    } else if code == 0x19 {
        Some(Tag::ExtSensNack)
    } else if code == 0x1A {
        Some(Tag::MlcResult)
    } else if code == 0x1B {
        Some(Tag::MlcFilter)
    } else if code == 0x1C {
        Some(Tag::MlcFeature)
    } else if code == 0x1D {
        Some(Tag::DualcXl)
    } else if code == 0x1E {
        Some(Tag::EisGy)
    } else {
        None
    }
}

impl Tag {
    /// Explicit, fallible conversion of a raw 5-bit header code to a tag;
    /// unknown codes are rejected as data, never reinterpreted.
    pub fn from_code(code: u8) -> (r: Option<Tag>)
        ensures
            r == spec_tag_of_code(code),
            r.is_some() <==> code <= 0x1E,
            r.is_some() ==> tag_code(r.unwrap()) == code,
    {
        let r = match code {
            0x00 => Some(Tag::Empty),
            0x01 => Some(Tag::Gy),
            0x02 => Some(Tag::Xl),
            0x03 => Some(Tag::Temp),
            0x04 => Some(Tag::Ts),
            0x05 => Some(Tag::Odrchg),
            0x06 => Some(Tag::XlUncompressedT2),
            0x07 => Some(Tag::XlUncompressedT1),
            0x08 => Some(Tag::XlCompressed2x),
            0x09 => Some(Tag::XlCompressed3x),
            0x0A => Some(Tag::GyUncompressedT2),
            0x0B => Some(Tag::GyUncompressedT1),
            0x0C => Some(Tag::GyCompressed2x),
            0x0D => Some(Tag::GyCompressed3x),
            0x0E => Some(Tag::ExtSens0),
            0x0F => Some(Tag::ExtSens1),
            0x10 => Some(Tag::ExtSens2),
            0x11 => Some(Tag::ExtSens3),
            0x12 => Some(Tag::StepCounter),
            0x13 => Some(Tag::GameRv),
            0x14 => Some(Tag::GeomRv),
            0x15 => Some(Tag::NormRv),
            0x16 => Some(Tag::GyroBias),
            0x17 => Some(Tag::Gravity),
            0x18 => Some(Tag::MagCal),
            0x19 => Some(Tag::ExtSensNack),
            0x1A => Some(Tag::MlcResult),
            0x1B => Some(Tag::MlcFilter),
            0x1C => Some(Tag::MlcFeature),
            0x1D => Some(Tag::DualcXl),
            0x1E => Some(Tag::EisGy),
            _ => None,
        };
        r
    }
}

/// Sensor a record with the given tag belongs to.
pub open spec fn spec_sensor_type(t: Tag) -> SensorType {
    match t {
        Tag::Gy => SensorType::Gyroscope,
        Tag::Xl => SensorType::Accelerometer,
        Tag::Temp => SensorType::Temperature,
        Tag::ExtSens0 => SensorType::ExtSensor0,
        Tag::ExtSens1 => SensorType::ExtSensor1,
        Tag::ExtSens2 => SensorType::ExtSensor2,
        Tag::ExtSens3 => SensorType::ExtSensor3,
        Tag::XlUncompressedT2 => SensorType::Accelerometer,
        Tag::XlUncompressedT1 => SensorType::Accelerometer,
        Tag::XlCompressed2x => SensorType::Accelerometer,
        Tag::XlCompressed3x => SensorType::Accelerometer,
        Tag::GyUncompressedT2 => SensorType::Gyroscope,
        Tag::GyUncompressedT1 => SensorType::Gyroscope,
        Tag::GyCompressed2x => SensorType::Gyroscope,
        Tag::GyCompressed3x => SensorType::Gyroscope,
        Tag::StepCounter => SensorType::StepCounter,
        Tag::GameRv => SensorType::GameRv6x,
        Tag::GeomRv => SensorType::GeomRv6x,
        Tag::NormRv => SensorType::Rv9x,
        Tag::GyroBias => SensorType::GyroBias,
        Tag::Gravity => SensorType::Gravity,
        Tag::MagCal => SensorType::MagCalib,
        Tag::ExtSensNack => SensorType::ExtSensorNack,
        Tag::MlcResult => SensorType::MlcResult,
        Tag::MlcFilter => SensorType::MlcFilter,
        Tag::MlcFeature => SensorType::MlcFeature,
        Tag::DualcXl => SensorType::DualAccel,
        Tag::EisGy => SensorType::EisGyro,
        _ => SensorType::NoSensor,
    }
}

/// Compression scheme of a record with the given tag.
pub open spec fn spec_compression_type(t: Tag) -> CompressionType {
    match t {
        Tag::XlUncompressedT2 | Tag::GyUncompressedT2 => CompressionType::NcT2,
        Tag::XlUncompressedT1 | Tag::GyUncompressedT1 => CompressionType::NcT1,
        Tag::XlCompressed2x | Tag::GyCompressed2x => CompressionType::Comp2x,
        Tag::XlCompressed3x | Tag::GyCompressed3x => CompressionType::Comp3x,
        _ => CompressionType::Nc,
    }
}

/// Number of output samples a record of the given tag contributes.
pub open spec fn spec_sample_count(t: Tag) -> nat {
    if t == Tag::Empty || t == Tag::Ts || t == Tag::Odrchg {
        0
    } else {
        match spec_compression_type(t) {
            CompressionType::Nc => 1,
            CompressionType::NcT1 => 1,
            CompressionType::NcT2 => 1,
            CompressionType::Comp2x => 2,
            CompressionType::Comp3x => 3,
        }
    }
}

impl SensorType {
    /// Human-readable name of the sensor type.
    pub fn name(&self) -> (r: &'static str)
        ensures
            r@ == spec_sensor_name(*self),
    {
        match self {
            SensorType::Gyroscope => "Gyroscope",
            SensorType::Accelerometer => "Accelerometer",
            SensorType::Temperature => "Temperature",
            SensorType::ExtSensor0 => "ExtSensor0",
            SensorType::ExtSensor1 => "ExtSensor1",
            SensorType::ExtSensor2 => "ExtSensor2",
            SensorType::ExtSensor3 => "ExtSensor3",
            SensorType::StepCounter => "StepCounter",
            SensorType::GameRv6x => "GameRv6x",
            SensorType::GeomRv6x => "GeomRv6x",
            SensorType::Rv9x => "Rv9x",
            SensorType::GyroBias => "GyroBias",
            SensorType::Gravity => "Gravity",
            SensorType::MagCalib => "MagCalib",
            SensorType::ExtSensorNack => "ExtSensorNack",
            SensorType::MlcResult => "MlcResult",
            SensorType::MlcFilter => "MlcFilter",
            SensorType::MlcFeature => "MlcFeature",
            SensorType::DualAccel => "DualAccel",
            SensorType::EisGyro => "EisGyro",
            SensorType::NoSensor => "NoSensor",
        }
    }
}

/// Name of a sensor type, as a sequence of characters.
pub open spec fn spec_sensor_name(s: SensorType) -> Seq<char> {
    match s {
        SensorType::Gyroscope => "Gyroscope"@,
        SensorType::Accelerometer => "Accelerometer"@,
        SensorType::Temperature => "Temperature"@,
        SensorType::ExtSensor0 => "ExtSensor0"@,
        SensorType::ExtSensor1 => "ExtSensor1"@,
        SensorType::ExtSensor2 => "ExtSensor2"@,
        SensorType::ExtSensor3 => "ExtSensor3"@,
        SensorType::StepCounter => "StepCounter"@,
        SensorType::GameRv6x => "GameRv6x"@,
        SensorType::GeomRv6x => "GeomRv6x"@,
        SensorType::Rv9x => "Rv9x"@,
        SensorType::GyroBias => "GyroBias"@,
        SensorType::Gravity => "Gravity"@,
        SensorType::MagCalib => "MagCalib"@,
        SensorType::ExtSensorNack => "ExtSensorNack"@,
        SensorType::MlcResult => "MlcResult"@,
        SensorType::MlcFilter => "MlcFilter"@,
        SensorType::MlcFeature => "MlcFeature"@,
        SensorType::DualAccel => "DualAccel"@,
        SensorType::EisGyro => "EisGyro"@,
        SensorType::NoSensor => "NoSensor"@,
    }
}

} // verus!
