//! How a vehicle's yaw is controlled.

use crate::types::number::F32Bits;
use crate::value::{pair_models_of, ValueModel, WireValue};
use vstd::prelude::*;

verus! {

/// Either a yaw angle to face or a rate at which to turn.
#[derive(Debug, Clone, Copy, PartialEq, Eq)]
pub struct YawMode<F> {
    is_rate: bool,
    yaw_or_rate: F,
}

/// The value that stands for a yaw mode on the wire: the fields `is_rate` and
/// `yaw_or_rate`, in this order.
pub open spec fn yaw_mode_value(is_rate: bool, yaw_or_rate: F32Bits) -> ValueModel {
    ValueModel::Dict(
        seq![
            (ValueModel::String("is_rate"@), ValueModel::Boolean(is_rate)),
            (ValueModel::String("yaw_or_rate"@), ValueModel::F32(yaw_or_rate)),
        ],
    )
}

impl<F> YawMode<F> {
    /// Whether the number is a rate of turn rather than an angle.
    pub closed spec fn spec_is_rate(&self) -> bool {
        self.is_rate
    }

    /// The angle or the rate.
    pub closed spec fn spec_yaw_or_rate(&self) -> F {
        self.yaw_or_rate
    }

    /// The mode with the given number, which is a rate when `is_rate` is set
    /// and an angle otherwise.
    pub fn new(is_rate: bool, yaw_or_rate: F) -> (out: Self)
        ensures
            out.spec_is_rate() == is_rate,
            out.spec_yaw_or_rate() == yaw_or_rate,
    {
        YawMode { is_rate, yaw_or_rate }
    }

    /// Whether the number is a rate of turn rather than an angle.
    #[verifier::when_used_as_spec(spec_is_rate)]
    pub fn is_rate(&self) -> (out: bool)
        ensures
            out == self.spec_is_rate(),
    {
        self.is_rate
    }

    /// The angle or the rate.
    pub fn yaw_or_rate(&self) -> (out: &F)
        ensures
            *out == self.spec_yaw_or_rate(),
    {
        &self.yaw_or_rate
    }
}

impl YawMode<F32Bits> {
    /// The value that stands for the mode on the wire.
    pub fn as_msgpack(&self) -> (out: WireValue)
        ensures
            out@ == yaw_mode_value(self.spec_is_rate(), self.spec_yaw_or_rate()),
    {
        let entries = vec![
            (WireValue::from_str("is_rate"), WireValue::Boolean(self.is_rate)),
            (WireValue::from_str("yaw_or_rate"), WireValue::F32(self.yaw_or_rate)),
        ];
        assert(pair_models_of(entries@) =~= yaw_mode_value(self.is_rate, self.yaw_or_rate)->Dict_0);
        WireValue::Dict(entries)
    }
}

} // verus!
