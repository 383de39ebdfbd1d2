//! Remote-control commands and the remote-control state that is reported.

use crate::error::DecodeError;
use crate::types::collision_info::{
    bool_at, number_at, read_bool_at, read_number_at, read_u64_at, u64_at,
};
use crate::types::number::{F32Bits, Number, NumberModel};
use crate::types::pose::Orientation3;
use crate::value::{pair_models_of, ValueModel, WireValue};
use vstd::prelude::*;

verus! {

/// One remote-control command.
#[derive(Debug, Clone, Copy, PartialEq, Eq)]
pub struct RCData<F> {
    pub timestamp: u64,
    pub orientation: Orientation3<F>,
    pub throttle: F,
    pub switches: [u32; 8],
    pub is_initialized: bool,
    pub is_valid: bool,
}

impl<F> RCData<F> {
    /// The command with the given parts; switches that are not given are all
    /// zero.
    pub fn new(
        timestamp: u64,
        orientation: Orientation3<F>,
        throttle: F,
        switches: Option<[u32; 8]>,
        is_initialized: bool,
        is_valid: bool,
    ) -> (out: Self)
        ensures
            out.timestamp == timestamp,
            out.orientation == orientation,
            out.throttle == throttle,
            out.is_initialized == is_initialized,
            out.is_valid == is_valid,
            match switches {
                Some(given) => out.switches == given,
                None => forall|i: int| 0 <= i < 8 ==> out.switches[i] == 0,
            },
    {
        let switches = match switches {
            Some(given) => given,
            None => [0, 0, 0, 0, 0, 0, 0, 0],
        };
        RCData { timestamp, orientation, throttle, switches, is_initialized, is_valid }
    }
}

/// The value that stands for a remote-control command on the wire: fifteen
/// named fields, in this order.
pub open spec fn rc_data_value(data: RCData<F32Bits>) -> ValueModel {
    ValueModel::Dict(
        seq![
            (ValueModel::String("timestamp"@), ValueModel::Integer(data.timestamp as int)),
            (ValueModel::String("pitch"@), ValueModel::F32(data.orientation.pitch)),
            (ValueModel::String("roll"@), ValueModel::F32(data.orientation.roll)),
            (ValueModel::String("throttle"@), ValueModel::F32(data.throttle)),
            (ValueModel::String("yaw"@), ValueModel::F32(data.orientation.yaw)),
            (ValueModel::String("switch1"@), ValueModel::Integer(data.switches[0] as int)),
            (ValueModel::String("switch2"@), ValueModel::Integer(data.switches[1] as int)),
            (ValueModel::String("switch3"@), ValueModel::Integer(data.switches[2] as int)),
            (ValueModel::String("switch4"@), ValueModel::Integer(data.switches[3] as int)),
            (ValueModel::String("switch5"@), ValueModel::Integer(data.switches[4] as int)),
            (ValueModel::String("switch6"@), ValueModel::Integer(data.switches[5] as int)),
            (ValueModel::String("switch7"@), ValueModel::Integer(data.switches[6] as int)),
            (ValueModel::String("switch8"@), ValueModel::Integer(data.switches[7] as int)),
            (ValueModel::String("is_initialized"@), ValueModel::Boolean(data.is_initialized)),
            (ValueModel::String("is_valid"@), ValueModel::Boolean(data.is_valid)),
        ],
    )
}

impl RCData<F32Bits> {
    /// The value that stands for the command on the wire.
    pub fn as_msgpack(&self) -> (out: WireValue)
        ensures
            out@ == rc_data_value(*self),
    {
        let entries = vec![
            (WireValue::from_str("timestamp"), WireValue::from_u64(self.timestamp)),
            (WireValue::from_str("pitch"), WireValue::F32(self.orientation.pitch)),
            (WireValue::from_str("roll"), WireValue::F32(self.orientation.roll)),
            (WireValue::from_str("throttle"), WireValue::F32(self.throttle)),
            (WireValue::from_str("yaw"), WireValue::F32(self.orientation.yaw)),
            (WireValue::from_str("switch1"), WireValue::from_u64(self.switches[0] as u64)),
            (WireValue::from_str("switch2"), WireValue::from_u64(self.switches[1] as u64)),
            (WireValue::from_str("switch3"), WireValue::from_u64(self.switches[2] as u64)),
            (WireValue::from_str("switch4"), WireValue::from_u64(self.switches[3] as u64)),
            (WireValue::from_str("switch5"), WireValue::from_u64(self.switches[4] as u64)),
            (WireValue::from_str("switch6"), WireValue::from_u64(self.switches[5] as u64)),
            (WireValue::from_str("switch7"), WireValue::from_u64(self.switches[6] as u64)),
            (WireValue::from_str("switch8"), WireValue::from_u64(self.switches[7] as u64)),
            (WireValue::from_str("is_initialized"), WireValue::Boolean(self.is_initialized)),
            (WireValue::from_str("is_valid"), WireValue::Boolean(self.is_valid)),
        ];
        assert(pair_models_of(entries@) =~= rc_data_value(*self)->Dict_0);
        WireValue::Dict(entries)
    }
}

/// The remote-control state that the simulator reports.
#[derive(Debug, Clone, Copy, PartialEq, Eq)]
pub struct RCDataState<F> {
    pub timestamp: u64,
    pub orientation: Orientation3<F>,
    pub throttle: F,
    pub switches: u64,
    pub is_initialized: bool,
    pub is_valid: bool,
}

impl View for RCDataState<Number> {
    type V = RCDataState<NumberModel>;

    open spec fn view(&self) -> RCDataState<NumberModel> {
        RCDataState {
            timestamp: self.timestamp,
            orientation: self.orientation@,
            throttle: self.throttle@,
            switches: self.switches,
            is_initialized: self.is_initialized,
            is_valid: self.is_valid,
        }
    }
}

/// The remote-control state that a value stands for. Of its fields, the first
/// is the time, the second the pitch, the third the roll, the fourth the
/// throttle, the fifth the yaw, the eighth the switches, the tenth whether the
/// control is initialized and the eleventh whether it is valid.
pub open spec fn rc_state_of(value: ValueModel) -> Option<RCDataState<NumberModel>> {
    match (
        u64_at(value, 0),
        number_at(value, 1),
        number_at(value, 2),
        number_at(value, 4),
        number_at(value, 3),
        u64_at(value, 7),
        bool_at(value, 9),
        bool_at(value, 10),
    ) {
        (
            Some(timestamp),
            Some(pitch),
            Some(roll),
            Some(yaw),
            Some(throttle),
            Some(switches),
            Some(is_initialized),
            Some(is_valid),
        ) => Some(
            RCDataState {
                timestamp,
                orientation: Orientation3 { roll, pitch, yaw },
                throttle,
                switches,
                is_initialized,
                is_valid,
            },
        ),
        _ => None,
    }
}

impl RCDataState<Number> {
    /// Reads the remote-control state off a value.
    pub fn from_value(msgpack: &WireValue) -> (out: Result<Self, DecodeError>)
        ensures
            match out {
                Ok(state) => rc_state_of(msgpack@) == Some(state@),
                Err(error) => rc_state_of(msgpack@).is_none() && error
                    == DecodeError::UnexpectedShape,
            },
    {
        match (
            read_u64_at(msgpack, 0),
            read_number_at(msgpack, 1),
            read_number_at(msgpack, 2),
            read_number_at(msgpack, 4),
            read_number_at(msgpack, 3),
            read_u64_at(msgpack, 7),
            read_bool_at(msgpack, 9),
            read_bool_at(msgpack, 10),
        ) {
            (
                Some(timestamp),
                Some(pitch),
                Some(roll),
                Some(yaw),
                Some(throttle),
                Some(switches),
                Some(is_initialized),
                Some(is_valid),
            ) => Ok(
                RCDataState {
                    timestamp,
                    orientation: Orientation3 { roll, pitch, yaw },
                    throttle,
                    switches,
                    is_initialized,
                    is_valid,
                },
            ),
            _ => Err(DecodeError::UnexpectedShape),
        }
    }
}

} // verus!
