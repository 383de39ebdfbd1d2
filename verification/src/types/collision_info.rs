//! What the simulator reports about a collision.

use crate::error::DecodeError;
use crate::types::number::{entry, entry_at, number_of, Number, NumberModel};
use crate::types::pose::{read_vector_at, vector_at};
use crate::types::vector::Vector3;
use crate::value::{ValueModel, WireValue};
use vstd::prelude::*;

verus! {

/// The last collision of a vehicle.
#[derive(Debug, Clone, PartialEq, Eq)]
pub struct CollisionInfo<F> {
    pub has_collided: bool,
    pub penetration_depth: F,
    pub timestamp: u64,
    pub normal: Vector3<F>,
    pub impact_point: Vector3<F>,
    pub position: Vector3<F>,
    pub object_name: String,
    pub object_id: i64,
}

/// The mathematical content of a [`CollisionInfo`].
pub struct CollisionInfoModel {
    pub has_collided: bool,
    pub penetration_depth: NumberModel,
    pub timestamp: u64,
    pub normal: Vector3<NumberModel>,
    pub impact_point: Vector3<NumberModel>,
    pub position: Vector3<NumberModel>,
    pub object_name: Seq<char>,
    pub object_id: i64,
}

impl View for CollisionInfo<Number> {
    type V = CollisionInfoModel;

    open spec fn view(&self) -> CollisionInfoModel {
        CollisionInfoModel {
            has_collided: self.has_collided,
            penetration_depth: self.penetration_depth@,
            timestamp: self.timestamp,
            normal: self.normal@,
            impact_point: self.impact_point@,
            position: self.position@,
            object_name: self.object_name@,
            object_id: self.object_id,
        }
    }
}

/// The boolean in the field at position `i` of a value.
pub open spec fn bool_at(value: ValueModel, i: int) -> Option<bool> {
    match entry(value, i) {
        Some(field) => field.as_bool(),
        None => None,
    }
}

/// The unsigned integer in the field at position `i` of a value.
pub open spec fn u64_at(value: ValueModel, i: int) -> Option<u64> {
    match entry(value, i) {
        Some(field) => field.as_u64(),
        None => None,
    }
}

/// The signed integer in the field at position `i` of a value.
pub open spec fn i64_at(value: ValueModel, i: int) -> Option<i64> {
    match entry(value, i) {
        Some(field) => field.as_i64(),
        None => None,
    }
}

/// The number in the field at position `i` of a value.
pub open spec fn number_at(value: ValueModel, i: int) -> Option<NumberModel> {
    match entry(value, i) {
        Some(field) => number_of(field),
        None => None,
    }
}

/// The text in the field at position `i` of a value.
pub open spec fn text_at(value: ValueModel, i: int) -> Option<Seq<char>> {
    match entry(value, i) {
        Some(field) => field.as_str(),
        None => None,
    }
}

/// Reads the boolean in the field at position `i`.
pub fn read_bool_at(value: &WireValue, i: usize) -> (out: Option<bool>)
    ensures
        out == bool_at(value@, i as int),
{
    match entry_at(value, i) {
        Some(field) => field.as_bool(),
        None => None,
    }
}

/// Reads the unsigned integer in the field at position `i`.
pub fn read_u64_at(value: &WireValue, i: usize) -> (out: Option<u64>)
    ensures
        out == u64_at(value@, i as int),
{
    match entry_at(value, i) {
        Some(field) => field.as_u64(),
        None => None,
    }
}

/// Reads the signed integer in the field at position `i`.
pub fn read_i64_at(value: &WireValue, i: usize) -> (out: Option<i64>)
    ensures
        out == i64_at(value@, i as int),
{
    match entry_at(value, i) {
        Some(field) => field.as_i64(),
        None => None,
    }
}

/// Reads the number in the field at position `i`.
pub fn read_number_at(value: &WireValue, i: usize) -> (out: Option<Number>)
    ensures
        match out {
            Some(number) => number_at(value@, i as int) == Some(number@),
            None => number_at(value@, i as int).is_none(),
        },
{
    match entry_at(value, i) {
        Some(field) => Number::from_value(field),
        None => None,
    }
}

/// Reads the text in the field at position `i`.
pub fn read_text_at(value: &WireValue, i: usize) -> (out: Option<String>)
    ensures
        match out {
            Some(text) => text_at(value@, i as int) == Some(text@),
            None => text_at(value@, i as int).is_none(),
        },
{
    match entry_at(value, i) {
        Some(field) => match field.as_str() {
            Some(text) => Some(text.to_owned()),
            None => None,
        },
        None => None,
    }
}

/// The collision that a value stands for. Its first eight fields are, in this
/// order: whether there was a collision, the penetration depth, the time, the
/// normal, the impact point, the position, the object's name and the object's
/// id.
pub open spec fn collision_of(value: ValueModel) -> Option<CollisionInfoModel> {
    match (
        bool_at(value, 0),
        number_at(value, 1),
        u64_at(value, 2),
        vector_at(value, 3),
        vector_at(value, 4),
        vector_at(value, 5),
        text_at(value, 6),
        i64_at(value, 7),
    ) {
        (
            Some(has_collided),
            Some(penetration_depth),
            Some(timestamp),
            Some(normal),
            Some(impact_point),
            Some(position),
            Some(object_name),
            Some(object_id),
        ) => Some(
            CollisionInfoModel {
                has_collided,
                penetration_depth,
                timestamp,
                normal,
                impact_point,
                position,
                object_name,
                object_id,
            },
        ),
        _ => None,
    }
}

impl CollisionInfo<Number> {
    /// Reads a collision off a value.
    pub fn from_value(msgpack: &WireValue) -> (out: Result<Self, DecodeError>)
        ensures
            match out {
                Ok(collision) => collision_of(msgpack@) == Some(collision@),
                Err(error) => collision_of(msgpack@).is_none() && error
                    == DecodeError::UnexpectedShape,
            },
    {
        match (
            read_bool_at(msgpack, 0),
            read_number_at(msgpack, 1),
            read_u64_at(msgpack, 2),
            read_vector_at(msgpack, 3),
            read_vector_at(msgpack, 4),
            read_vector_at(msgpack, 5),
            read_text_at(msgpack, 6),
            read_i64_at(msgpack, 7),
        ) {
            (
                Some(has_collided),
                Some(penetration_depth),
                Some(timestamp),
                Some(normal),
                Some(impact_point),
                Some(position),
                Some(object_name),
                Some(object_id),
            ) => Ok(
                CollisionInfo {
                    has_collided,
                    penetration_depth,
                    timestamp,
                    normal,
                    impact_point,
                    position,
                    object_name,
                    object_id,
                },
            ),
            _ => Err(DecodeError::UnexpectedShape),
        }
    }
}

} // verus!
