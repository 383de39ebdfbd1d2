//! How a vehicle orients itself while it travels.

use crate::value::{ValueModel, WireValue};
use vstd::prelude::*;

verus! {

/// Whether the vehicle keeps its front towards the direction of travel.
#[derive(Debug, Clone, Copy, PartialEq, Eq, Structural)]
pub enum DrivetrainType {
    /// The vehicle moves freely, whatever way it faces.
    MaxDegreeOfFreedom,
    /// The vehicle turns so that its front faces the direction of travel.
    ForwardOnly,
}

impl DrivetrainType {
    /// The number that stands for the drivetrain on the wire.
    pub open spec fn code(self) -> int {
        match self {
            DrivetrainType::MaxDegreeOfFreedom => 0,
            DrivetrainType::ForwardOnly => 1,
        }
    }

    /// The value that stands for the drivetrain on the wire.
    pub fn as_msgpack(&self) -> (out: WireValue)
        ensures
            out@ == ValueModel::Integer(self.code()),
    {
        let val: i64 = match self {
            DrivetrainType::MaxDegreeOfFreedom => 0,
            DrivetrainType::ForwardOnly => 1,
        };
        WireValue::from_i64(val)
    }
}

} // verus!
