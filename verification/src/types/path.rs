//! A path to fly.

use crate::types::number::F32Bits;
use crate::types::vector::{xyz_value, Vector3};
use crate::value::{models_of, ValueModel, WireValue};
use vstd::prelude::*;

verus! {

/// The way points of a path, in the order in which they are to be reached.
#[derive(Debug, Clone, PartialEq, Eq)]
pub struct Path<F>(pub Vec<Vector3<F>>);

/// The value that stands for a path on the wire: the array of its way points'
/// values, in order.
pub open spec fn path_value(points: Seq<Vector3<F32Bits>>) -> ValueModel {
    ValueModel::Array(
        Seq::new(points.len(), |i: int| xyz_value(points[i].x, points[i].y, points[i].z)),
    )
}

impl Path<F32Bits> {
    /// The value that stands for the path on the wire.
    pub fn as_msgpack(&self) -> (out: WireValue)
        ensures
            out@ == path_value(self.0@),
    {
        let mut points: Vec<WireValue> = Vec::new();
        let mut i: usize = 0;
        while i < self.0.len()
            invariant
                i <= self.0@.len(),
                points@.len() == i,
                forall|j: int|
                    0 <= j < i ==> (#[trigger] points@[j])@ == xyz_value(
                        self.0@[j].x,
                        self.0@[j].y,
                        self.0@[j].z,
                    ),
            decreases self.0@.len() - i,
        {
            points.push(self.0[i].as_msgpack());
            i += 1;
        }
        assert(models_of(points@) =~= path_value(self.0@)->Array_0);
        WireValue::Array(points)
    }
}

} // verus!
