//! A vector of three components.

use crate::error::DecodeError;
use crate::types::number::{first_three, three_numbers, F32Bits, Number, NumberModel};
use crate::value::{pair_models_of, ValueModel, WireValue};
use vstd::prelude::*;

verus! {

/// Three components along the x, y and z axes. `F` is how a component is
/// held: as a bit pattern to send, as a [`Number`] when received.
#[derive(Debug, Clone, Copy, PartialEq, Eq)]
pub struct Vector3<F> {
    pub x: F,
    pub y: F,
    pub z: F,
}

/// The value that stands for three single-precision components on the wire:
/// the fields `x_val`, `y_val` and `z_val`, in this order.
pub open spec fn xyz_value(x: F32Bits, y: F32Bits, z: F32Bits) -> ValueModel {
    ValueModel::Dict(
        seq![
            (ValueModel::String("x_val"@), ValueModel::F32(x)),
            (ValueModel::String("y_val"@), ValueModel::F32(y)),
            (ValueModel::String("z_val"@), ValueModel::F32(z)),
        ],
    )
}

/// Builds the value of three single-precision components.
pub fn xyz_msgpack(x: F32Bits, y: F32Bits, z: F32Bits) -> (out: WireValue)
    ensures
        out@ == xyz_value(x, y, z),
{
    let entries = vec![
        (WireValue::from_str("x_val"), WireValue::F32(x)),
        (WireValue::from_str("y_val"), WireValue::F32(y)),
        (WireValue::from_str("z_val"), WireValue::F32(z)),
    ];
    assert(pair_models_of(entries@) =~= xyz_value(x, y, z)->Dict_0);
    WireValue::Dict(entries)
}

impl<F> Vector3<F> {
    /// The vector with the given components.
    pub fn new(x: F, y: F, z: F) -> (out: Self)
        ensures
            out == (Vector3 { x, y, z }),
    {
        Vector3 { x, y, z }
    }
}

impl Vector3<F32Bits> {
    /// The value that stands for the vector on the wire.
    pub fn as_msgpack(&self) -> (out: WireValue)
        ensures
            out@ == xyz_value(self.x, self.y, self.z),
    {
        xyz_msgpack(self.x, self.y, self.z)
    }
}

impl View for Vector3<Number> {
    type V = Vector3<NumberModel>;

    open spec fn view(&self) -> Vector3<NumberModel> {
        Vector3 { x: self.x@, y: self.y@, z: self.z@ }
    }
}

/// The vector that a value stands for: the first three of the numbers that it
/// lists.
pub open spec fn vector_of(value: ValueModel) -> Option<Vector3<NumberModel>> {
    match three_numbers(value) {
        Some((x, y, z)) => Some(Vector3 { x, y, z }),
        None => None,
    }
}

impl Vector3<Number> {
    /// Reads a vector off a value.
    pub fn from_value(msgpack: &WireValue) -> (out: Result<Self, DecodeError>)
        ensures
            match out {
                Ok(vector) => vector_of(msgpack@) == Some(vector@),
                Err(error) => vector_of(msgpack@).is_none() && error == DecodeError::UnexpectedShape,
            },
    {
        match first_three(msgpack) {
            Some((x, y, z)) => Ok(Vector3 { x, y, z }),
            None => Err(DecodeError::UnexpectedShape),
        }
    }
}

} // verus!
