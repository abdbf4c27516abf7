//! What a sensor-bound widget reads, and how its colour follows the value.
use crate::float_bits::F32Bits;
use crate::sensors::TempSource;
use vstd::prelude::*;

verus! {

/// The value that a sensor-bound widget shows.
#[derive(Debug, PartialEq)]
pub enum SensorSourceConfig {
    /// A temperature source.
    Sensor { source: TempSource },
    /// A fixed value.
    Constant { value: F32Bits },
}

impl Clone for SensorSourceConfig {
    fn clone(&self) -> (r: Self)
        ensures
            r == *self,
    {
        match self {
            SensorSourceConfig::Sensor { source } => SensorSourceConfig::Sensor {
                source: source.clone(),
            },
            SensorSourceConfig::Constant { value } => SensorSourceConfig::Constant { value: *value },
        }
    }
}

/// A colour band of a gauge or bar: it applies up to `max` percent of the
/// range (`None`: to the end), in `color` with `alpha`.
#[derive(Clone, Copy, Debug, PartialEq, Eq)]
pub struct SensorRange {
    pub max: Option<F32Bits>,
    pub color: [u8; 3],
    pub alpha: u8,
}

} // verus!
