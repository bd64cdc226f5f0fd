//! Decoder for a motion sensor's hardware FIFO byte stream.
//!
//! The FIFO packs accelerometer, gyroscope and auxiliary records into 7-byte
//! tagged slots, compressing bursts of samples as signed deltas.  The decoder
//! turns a buffer of raw slots into timestamped, typed samples, tracking the
//! per-channel batch-rate intervals that drive timestamp reconstruction.

use vstd::prelude::*;

pub mod decoder;
pub mod laws;
pub mod model;
pub mod post;
pub mod profile;
pub mod sensor_data;
pub mod tags;

pub use decoder::Config;
pub use decoder::FifoData;
pub use decoder::OutSlot;
pub use decoder::RawSlot;
pub use profile::Device;
pub use profile::DeviceType;
pub use sensor_data::AxisData;
pub use sensor_data::ExtSensorNackData;
pub use sensor_data::MlcFilterFeatureData;
pub use sensor_data::MlcResultData;
pub use sensor_data::QuaternionData;
pub use sensor_data::SensorData;
pub use sensor_data::StepCounterData;
pub use sensor_data::TemperatureData;
pub use tags::BdrMask;
pub use tags::BdrShift;
pub use tags::CompressionType;
pub use tags::SensorType;
pub use tags::Tag;
pub use tags::TagMask;
pub use tags::TagShift;

verus! {

/// Outcome of a decoder operation.
#[derive(Clone, Copy, Debug, PartialEq, Eq, Structural)]
pub enum Status {
    /// The whole input was decoded.
    Success,
    /// A requested batch rate was negative at construction.
    InvalidConfig,
    /// A legacy-protocol slot header failed the parity check.
    CorruptHeader,
    /// A slot's tag exceeds the device generation's valid range.
    InvalidTag,
    /// The caller's output buffer cannot hold the decoded samples.
    CapacityExceeded,
}

/// The larger of two batch rates (millihertz).
pub fn max(a: i32, b: i32) -> (r: i32)
    ensures
        r == if a > b { a } else { b },
{
    if a > b { a } else { b }
}

/// The smaller of two values.
pub fn min(a: i32, b: i32) -> (r: i32)
    ensures
        r == if a < b { a } else { b },
{
    if a < b { a } else { b }
}

} // verus!
