//! The weather effects that the simulator can show.

use crate::value::{ValueModel, WireValue};
use vstd::prelude::*;

verus! {

/// One weather effect, or the switch that turns weather on.
#[derive(Debug, Clone, Copy, PartialEq, Eq, Structural)]
pub enum WeatherParameter {
    Rain,
    Roadwetness,
    Snow,
    RoadSnow,
    MapleLeaf,
    RoadLeaf,
    Dust,
    Fog,
    Enabled,
}

impl WeatherParameter {
    /// The number that stands for the parameter on the wire.
    pub open spec fn code(self) -> int {
        match self {
            WeatherParameter::Rain => 0,
            WeatherParameter::Roadwetness => 1,
            WeatherParameter::Snow => 2,
            WeatherParameter::RoadSnow => 3,
            WeatherParameter::MapleLeaf => 4,
            WeatherParameter::RoadLeaf => 5,
            WeatherParameter::Dust => 6,
            WeatherParameter::Fog => 7,
            WeatherParameter::Enabled => 8,
        }
    }

    /// The value that stands for the parameter on the wire.
    pub fn as_msgpack(&self) -> (out: WireValue)
        ensures
            out@ == ValueModel::Integer(self.code()),
    {
        let val: i64 = match self {
            WeatherParameter::Rain => 0,
            WeatherParameter::Roadwetness => 1,
            WeatherParameter::Snow => 2,
            WeatherParameter::RoadSnow => 3,
            WeatherParameter::MapleLeaf => 4,
            WeatherParameter::RoadLeaf => 5,
            WeatherParameter::Dust => 6,
            WeatherParameter::Fog => 7,
            WeatherParameter::Enabled => 8,
        };
        WireValue::from_i64(val)
    }
}

} // verus!
