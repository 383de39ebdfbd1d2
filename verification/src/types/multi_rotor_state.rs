//! Parts of a multirotor's reported state.

use crate::error::DecodeError;
use crate::message::{Response, ResponseModel};
use crate::types::collision_info::{
    collision_of, read_u64_at, u64_at, CollisionInfo, CollisionInfoModel,
};
use crate::types::geopoint::{geopoint_of, GeoPoint};
use crate::types::number::{entry, entry_at, Number, NumberModel};
use crate::types::pose::{kinematics_of, KinematicsState};
use crate::types::rc_data::{rc_state_of, RCDataState};
use crate::value::{ValueModel, WireValue};
use vstd::prelude::*;

verus! {

/// Whether the vehicle is on the ground.
#[derive(Debug, Clone, Copy, PartialEq, Eq, Structural)]
pub enum LandedState {
    /// Reported as `0`.
    Landed,
    /// Reported as `1`.
    Flying,
}

impl LandedState {
    /// The state that a value stands for: the integer `0` is `Landed`, the
    /// integer `1` is `Flying`, and no other value is a state.
    pub open spec fn of_value(value: ValueModel) -> Result<LandedState, DecodeError> {
        if value.as_u64() == Some(0u64) {
            Ok(LandedState::Landed)
        } else if value.as_u64() == Some(1u64) {
            Ok(LandedState::Flying)
        } else {
            Err(DecodeError::UnexpectedShape)
        }
    }

    /// Reads the state off a value.
    pub fn from_value(msgpack: &WireValue) -> (out: Result<LandedState, DecodeError>)
        ensures
            out == LandedState::of_value(msgpack@),
    {
        match msgpack.as_u64() {
            Some(0) => Ok(LandedState::Landed),
            Some(1) => Ok(LandedState::Flying),
            _ => Err(DecodeError::UnexpectedShape),
        }
    }
}

/// Everything that the simulator reports about a multirotor at one time.
#[derive(Debug, Clone, PartialEq, Eq)]
pub struct MultiRotorState<F> {
    pub collision: CollisionInfo<F>,
    pub kinematics_estimated: KinematicsState<F>,
    pub gps_location: GeoPoint<F>,
    pub timestamp: u64,
    pub landed_state: LandedState,
    pub rc_data: RCDataState<F>,
}

/// The mathematical content of a [`MultiRotorState`].
pub struct MultiRotorStateModel {
    pub collision: CollisionInfoModel,
    pub kinematics_estimated: KinematicsState<NumberModel>,
    pub gps_location: GeoPoint<NumberModel>,
    pub timestamp: u64,
    pub landed_state: LandedState,
    pub rc_data: RCDataState<NumberModel>,
}

impl View for MultiRotorState<Number> {
    type V = MultiRotorStateModel;

    open spec fn view(&self) -> MultiRotorStateModel {
        MultiRotorStateModel {
            collision: self.collision@,
            kinematics_estimated: self.kinematics_estimated@,
            gps_location: self.gps_location@,
            timestamp: self.timestamp,
            landed_state: self.landed_state,
            rc_data: self.rc_data@,
        }
    }
}

/// The state that a value stands for. Its first six fields are, in this order:
/// the collision, the kinematic state, the location, the time, the landed
/// state and the remote-control state.
pub open spec fn multi_rotor_state_of(value: ValueModel) -> Option<MultiRotorStateModel> {
    match (
        entry(value, 0),
        entry(value, 1),
        entry(value, 2),
        u64_at(value, 3),
        entry(value, 4),
        entry(value, 5),
    ) {
        (Some(first), Some(second), Some(third), Some(timestamp), Some(fifth), Some(sixth)) => match (
            collision_of(first),
            kinematics_of(second),
            geopoint_of(third),
            LandedState::of_value(fifth),
            rc_state_of(sixth),
        ) {
            (
                Some(collision),
                Some(kinematics_estimated),
                Some(gps_location),
                Ok(landed_state),
                Some(rc_data),
            ) => Some(
                MultiRotorStateModel {
                    collision,
                    kinematics_estimated,
                    gps_location,
                    timestamp,
                    landed_state,
                    rc_data,
                },
            ),
            _ => None,
        },
        _ => None,
    }
}

/// The state that a response carries: its result is a state. A response with
/// an error carries none.
pub open spec fn multi_rotor_state_of_response(response: ResponseModel) -> Option<
    MultiRotorStateModel,
> {
    match response.result {
        Ok(value) => multi_rotor_state_of(value),
        Err(_) => None,
    }
}

impl MultiRotorState<Number> {
    /// Reads the state off a response.
    pub fn from_response(msgpack: &Response) -> (out: Result<Self, DecodeError>)
        ensures
            match out {
                Ok(state) => multi_rotor_state_of_response(msgpack@) == Some(state@),
                Err(error) => multi_rotor_state_of_response(msgpack@).is_none() && error
                    == DecodeError::UnexpectedShape,
            },
    {
        let res = match &msgpack.result {
            Ok(res) => res,
            Err(_) => {
                return Err(DecodeError::UnexpectedShape);
            },
        };
        match (
            entry_at(res, 0),
            entry_at(res, 1),
            entry_at(res, 2),
            read_u64_at(res, 3),
            entry_at(res, 4),
            entry_at(res, 5),
        ) {
            (
                Some(first),
                Some(second),
                Some(third),
                Some(timestamp),
                Some(fifth),
                Some(sixth),
            ) => match (
                CollisionInfo::from_value(first),
                KinematicsState::from_value(second),
                GeoPoint::from_value(third),
                LandedState::from_value(fifth),
                RCDataState::from_value(sixth),
            ) {
                (
                    Ok(collision),
                    Ok(kinematics_estimated),
                    Ok(gps_location),
                    Ok(landed_state),
                    Ok(rc_data),
                ) => Ok(
                    MultiRotorState {
                        collision,
                        kinematics_estimated,
                        gps_location,
                        timestamp,
                        landed_state,
                        rc_data,
                    },
                ),
                _ => Err(DecodeError::UnexpectedShape),
            },
            _ => Err(DecodeError::UnexpectedShape),
        }
    }
}

} // verus!
