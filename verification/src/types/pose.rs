//! Positions, orientations, velocities and the kinematic state built of them.

use crate::error::DecodeError;
use crate::message::{Response, ResponseModel};
use crate::types::number::{
    entry, entry_at, first_four, first_three, four_numbers, three_numbers, F32Bits, Number,
    NumberModel,
};
use crate::types::vector::{vector_of, xyz_msgpack, xyz_value, Vector3};
use crate::value::{pair_models_of, ValueModel, WireValue};
use vstd::prelude::*;

verus! {

/// A position along the x, y and z axes.
#[derive(Debug, Clone, Copy, PartialEq, Eq)]
pub struct Position3<F> {
    pub x: F,
    pub y: F,
    pub z: F,
}

impl<F> Position3<F> {
    /// The position with the given coordinates.
    pub fn new(x: F, y: F, z: F) -> (out: Self)
        ensures
            out == (Position3 { x, y, z }),
    {
        Position3 { x, y, z }
    }
}

impl View for Position3<Number> {
    type V = Position3<NumberModel>;

    open spec fn view(&self) -> Position3<NumberModel> {
        Position3 { x: self.x@, y: self.y@, z: self.z@ }
    }
}

/// The position that a value stands for: the first three of the numbers that
/// it lists.
pub open spec fn position_of(value: ValueModel) -> Option<Position3<NumberModel>> {
    match three_numbers(value) {
        Some((x, y, z)) => Some(Position3 { x, y, z }),
        None => None,
    }
}

impl Position3<Number> {
    /// Reads a position off a value.
    pub fn from_value(msgpack: &WireValue) -> (out: Result<Self, DecodeError>)
        ensures
            match out {
                Ok(position) => position_of(msgpack@) == Some(position@),
                Err(error) => position_of(msgpack@).is_none() && error
                    == DecodeError::UnexpectedShape,
            },
    {
        match first_three(msgpack) {
            Some((x, y, z)) => Ok(Position3 { x, y, z }),
            None => Err(DecodeError::UnexpectedShape),
        }
    }
}

/// Roll, pitch and yaw angles, in radians.
#[derive(Debug, Clone, Copy, PartialEq, Eq)]
pub struct Orientation3<F> {
    /// The roll angle.
    pub roll: F,
    /// The pitch angle.
    pub pitch: F,
    /// The yaw angle.
    pub yaw: F,
}

impl<F> Orientation3<F> {
    /// The orientation with the given angles.
    pub fn new(roll: F, pitch: F, yaw: F) -> (out: Self)
        ensures
            out == (Orientation3 { roll, pitch, yaw }),
    {
        Orientation3 { roll, pitch, yaw }
    }
}

impl View for Orientation3<Number> {
    type V = Orientation3<NumberModel>;

    open spec fn view(&self) -> Orientation3<NumberModel> {
        Orientation3 { roll: self.roll@, pitch: self.pitch@, yaw: self.yaw@ }
    }
}

/// A rotation as a quaternion.
#[derive(Debug, Clone, Copy, PartialEq, Eq)]
pub struct Quaternion<F> {
    pub w: F,
    pub x: F,
    pub y: F,
    pub z: F,
}

impl<F> Quaternion<F> {
    /// The quaternion with the given components.
    pub fn new(w: F, x: F, y: F, z: F) -> (out: Self)
        ensures
            out == (Quaternion { w, x, y, z }),
    {
        Quaternion { w, x, y, z }
    }
}

impl View for Quaternion<Number> {
    type V = Quaternion<NumberModel>;

    open spec fn view(&self) -> Quaternion<NumberModel> {
        Quaternion { w: self.w@, x: self.x@, y: self.y@, z: self.z@ }
    }
}

/// The quaternion that a value stands for: the first four of the numbers that
/// it lists, as `w`, `x`, `y` and `z`.
pub open spec fn quaternion_of(value: ValueModel) -> Option<Quaternion<NumberModel>> {
    match four_numbers(value) {
        Some((w, x, y, z)) => Some(Quaternion { w, x, y, z }),
        None => None,
    }
}

impl Quaternion<Number> {
    /// Reads a quaternion off a value.
    pub fn from_value(msgpack: &WireValue) -> (out: Result<Self, DecodeError>)
        ensures
            match out {
                Ok(quaternion) => quaternion_of(msgpack@) == Some(quaternion@),
                Err(error) => quaternion_of(msgpack@).is_none() && error
                    == DecodeError::UnexpectedShape,
            },
    {
        match first_four(msgpack) {
            Some((w, x, y, z)) => Ok(Quaternion { w, x, y, z }),
            None => Err(DecodeError::UnexpectedShape),
        }
    }
}

/// A position together with an orientation.
#[derive(Debug, Clone, Copy, PartialEq, Eq)]
pub struct Pose3<F> {
    pub position: Position3<F>,
    pub orientation: Quaternion<F>,
}

impl<F> Pose3<F> {
    /// The pose with the given position and orientation.
    pub fn new(position: Position3<F>, orientation: Quaternion<F>) -> (out: Self)
        ensures
            out == (Pose3 { position, orientation }),
    {
        Pose3 { position, orientation }
    }
}

impl View for Pose3<Number> {
    type V = Pose3<NumberModel>;

    open spec fn view(&self) -> Pose3<NumberModel> {
        Pose3 { position: self.position@, orientation: self.orientation@ }
    }
}

/// The value that stands for a pose on the wire: the field `position`, with
/// the fields `x_val`, `y_val` and `z_val`, and then the field `orientation`,
/// with the fields `w_val`, `x_val`, `y_val` and `z_val`.
pub open spec fn pose_value(pose: Pose3<F32Bits>) -> ValueModel {
    ValueModel::Dict(
        seq![
            (
                ValueModel::String("position"@),
                xyz_value(pose.position.x, pose.position.y, pose.position.z),
            ),
            (
                ValueModel::String("orientation"@),
                ValueModel::Dict(
                    seq![
                        (ValueModel::String("w_val"@), ValueModel::F32(pose.orientation.w)),
                        (ValueModel::String("x_val"@), ValueModel::F32(pose.orientation.x)),
                        (ValueModel::String("y_val"@), ValueModel::F32(pose.orientation.y)),
                        (ValueModel::String("z_val"@), ValueModel::F32(pose.orientation.z)),
                    ],
                ),
            ),
        ],
    )
}

impl Pose3<F32Bits> {
    /// The value that stands for the pose on the wire.
    pub fn as_msgpack(&self) -> (out: WireValue)
        ensures
            out@ == pose_value(*self),
    {
        let position_msg = xyz_msgpack(self.position.x, self.position.y, self.position.z);
        let orientation = vec![
            (WireValue::from_str("w_val"), WireValue::F32(self.orientation.w)),
            (WireValue::from_str("x_val"), WireValue::F32(self.orientation.x)),
            (WireValue::from_str("y_val"), WireValue::F32(self.orientation.y)),
            (WireValue::from_str("z_val"), WireValue::F32(self.orientation.z)),
        ];
        assert(pair_models_of(orientation@) =~= pose_value(*self)->Dict_0[1].1->Dict_0);
        let orientation_msg = WireValue::Dict(orientation);
        let pose = vec![
            (WireValue::from_str("position"), position_msg),
            (WireValue::from_str("orientation"), orientation_msg),
        ];
        assert(pair_models_of(pose@) =~= pose_value(*self)->Dict_0);
        WireValue::Dict(pose)
    }
}

/// The pose that a value stands for: its first field is a position, its second
/// a quaternion.
pub open spec fn pose_of(value: ValueModel) -> Option<Pose3<NumberModel>> {
    match (entry(value, 0), entry(value, 1)) {
        (Some(first), Some(second)) => match (position_of(first), quaternion_of(second)) {
            (Some(position), Some(orientation)) => Some(Pose3 { position, orientation }),
            _ => None,
        },
        _ => None,
    }
}

/// The pose that a response carries: its result is a pose. A response with an
/// error carries none.
pub open spec fn pose_of_response(response: ResponseModel) -> Option<Pose3<NumberModel>> {
    match response.result {
        Ok(value) => pose_of(value),
        Err(_) => None,
    }
}

impl Pose3<Number> {
    /// Reads a pose off a response.
    pub fn from_response(msgpack: &Response) -> (out: Result<Self, DecodeError>)
        ensures
            match out {
                Ok(pose) => pose_of_response(msgpack@) == Some(pose@),
                Err(error) => pose_of_response(msgpack@).is_none() && error
                    == DecodeError::UnexpectedShape,
            },
    {
        let res = match &msgpack.result {
            Ok(res) => res,
            Err(_) => {
                return Err(DecodeError::UnexpectedShape);
            },
        };
        match (entry_at(res, 0), entry_at(res, 1)) {
            (Some(first), Some(second)) => match (
                Position3::from_value(first),
                Quaternion::from_value(second),
            ) {
                (Ok(position), Ok(orientation)) => Ok(Pose3 { position, orientation }),
                _ => Err(DecodeError::UnexpectedShape),
            },
            _ => Err(DecodeError::UnexpectedShape),
        }
    }
}

/// Roll and pitch angles, in radians.
#[derive(Debug, Clone, Copy, PartialEq, Eq)]
pub struct Orientation2<F> {
    /// The roll angle.
    pub roll: F,
    /// The pitch angle.
    pub pitch: F,
}

impl<F> Orientation2<F> {
    /// The orientation with the given angles.
    pub fn new(roll: F, pitch: F) -> (out: Self)
        ensures
            out == (Orientation2 { roll, pitch }),
    {
        Orientation2 { roll, pitch }
    }
}

/// A velocity along the x, y and z axes.
#[derive(Debug, Clone, Copy, PartialEq, Eq)]
pub struct Velocity3<F> {
    pub vx: F,
    pub vy: F,
    pub vz: F,
}

impl<F> Velocity3<F> {
    /// The velocity with the given components.
    pub fn new(vx: F, vy: F, vz: F) -> (out: Self)
        ensures
            out == (Velocity3 { vx, vy, vz }),
    {
        Velocity3 { vx, vy, vz }
    }
}

/// A velocity along the x and y axes.
#[derive(Debug, Clone, Copy, PartialEq, Eq)]
pub struct Velocity2<F> {
    pub vx: F,
    pub vy: F,
}

impl<F> Velocity2<F> {
    /// The velocity with the given components.
    pub fn new(vx: F, vy: F) -> (out: Self)
        ensures
            out == (Velocity2 { vx, vy }),
    {
        Velocity2 { vx, vy }
    }
}

/// The kinematic state of a vehicle.
#[derive(Debug, Clone, Copy, PartialEq, Eq)]
pub struct KinematicsState<F> {
    /// The position, in the frame of the vehicle's starting point.
    pub position: Position3<F>,
    /// The orientation, in the frame of the vehicle's starting point.
    pub orientation: Orientation3<F>,
    /// The linear velocity.
    pub linear_velocity: Vector3<F>,
    /// The angular velocity.
    pub angular_velocity: Vector3<F>,
    /// The linear acceleration.
    pub linear_acceleration: Vector3<F>,
    /// The angular acceleration.
    pub angular_acceleration: Vector3<F>,
}

impl<F> KinematicsState<F> {
    /// The state with the given parts.
    pub fn new(
        position: Position3<F>,
        orientation: Orientation3<F>,
        linear_velocity: Vector3<F>,
        angular_velocity: Vector3<F>,
        linear_acceleration: Vector3<F>,
        angular_acceleration: Vector3<F>,
    ) -> (out: Self)
        ensures
            out == (KinematicsState {
                position,
                orientation,
                linear_velocity,
                angular_velocity,
                linear_acceleration,
                angular_acceleration,
            }),
    {
        KinematicsState {
            position,
            orientation,
            linear_velocity,
            angular_velocity,
            linear_acceleration,
            angular_acceleration,
        }
    }
}

impl View for KinematicsState<Number> {
    type V = KinematicsState<NumberModel>;

    open spec fn view(&self) -> KinematicsState<NumberModel> {
        KinematicsState {
            position: self.position@,
            orientation: self.orientation@,
            linear_velocity: self.linear_velocity@,
            angular_velocity: self.angular_velocity@,
            linear_acceleration: self.linear_acceleration@,
            angular_acceleration: self.angular_acceleration@,
        }
    }
}

/// The orientation that a value stands for: the first three of the numbers
/// that it lists, as roll, pitch and yaw.
pub open spec fn orientation_of(value: ValueModel) -> Option<Orientation3<NumberModel>> {
    match three_numbers(value) {
        Some((roll, pitch, yaw)) => Some(Orientation3 { roll, pitch, yaw }),
        None => None,
    }
}

/// The vector that the field at position `i` of a value stands for.
pub open spec fn vector_at(value: ValueModel, i: int) -> Option<Vector3<NumberModel>> {
    match entry(value, i) {
        Some(field) => vector_of(field),
        None => None,
    }
}

/// Reads a vector off the field at position `i` of a value.
pub fn read_vector_at(value: &WireValue, i: usize) -> (out: Option<Vector3<Number>>)
    ensures
        match out {
            Some(vector) => vector_at(value@, i as int) == Some(vector@),
            None => vector_at(value@, i as int).is_none(),
        },
{
    match entry_at(value, i) {
        Some(field) => match Vector3::from_value(field) {
            Ok(vector) => Some(vector),
            Err(_) => None,
        },
        None => None,
    }
}

/// The kinematic state that a value stands for. Its first six fields are, in
/// this order: position, orientation, linear velocity, angular velocity,
/// linear acceleration and angular acceleration, each a list of at least three
/// numbers.
pub open spec fn kinematics_of(value: ValueModel) -> Option<KinematicsState<NumberModel>> {
    match (
        vector_at(value, 0),
        vector_at(value, 1),
        vector_at(value, 2),
        vector_at(value, 3),
        vector_at(value, 4),
        vector_at(value, 5),
    ) {
        (Some(p), Some(o), Some(lv), Some(av), Some(la), Some(aa)) => Some(
            KinematicsState {
                position: Position3 { x: p.x, y: p.y, z: p.z },
                orientation: Orientation3 { roll: o.x, pitch: o.y, yaw: o.z },
                linear_velocity: lv,
                angular_velocity: av,
                linear_acceleration: la,
                angular_acceleration: aa,
            },
        ),
        _ => None,
    }
}

impl KinematicsState<Number> {
    /// Reads a kinematic state off a value.
    pub fn from_value(msgpack: &WireValue) -> (out: Result<Self, DecodeError>)
        ensures
            match out {
                Ok(state) => kinematics_of(msgpack@) == Some(state@),
                Err(error) => kinematics_of(msgpack@).is_none() && error
                    == DecodeError::UnexpectedShape,
            },
    {
        match (
            read_vector_at(msgpack, 0),
            read_vector_at(msgpack, 1),
            read_vector_at(msgpack, 2),
            read_vector_at(msgpack, 3),
            read_vector_at(msgpack, 4),
            read_vector_at(msgpack, 5),
        ) {
            (Some(p), Some(o), Some(lv), Some(av), Some(la), Some(aa)) => Ok(
                KinematicsState {
                    position: Position3 { x: p.x, y: p.y, z: p.z },
                    orientation: Orientation3 { roll: o.x, pitch: o.y, yaw: o.z },
                    linear_velocity: lv,
                    angular_velocity: av,
                    linear_acceleration: la,
                    angular_acceleration: aa,
                },
            ),
            _ => Err(DecodeError::UnexpectedShape),
        }
    }
}

} // verus!
