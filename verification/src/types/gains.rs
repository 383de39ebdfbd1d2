//! Controller gains.

use crate::types::number::F32Bits;
use crate::value::{models_of, ValueModel, WireValue};
use vstd::prelude::*;

verus! {

/// The gains of one PID controller.
#[derive(Debug, Clone, Copy, PartialEq, Eq)]
pub struct PIDGains<F> {
    /// The proportional gain.
    pub kp: F,
    /// The integrator gain.
    pub ki: F,
    /// The derivative gain.
    pub kd: F,
}

/// The value that an array of three single-precision numbers stands for.
pub open spec fn three_value(a: F32Bits, b: F32Bits, c: F32Bits) -> ValueModel {
    ValueModel::Array(seq![ValueModel::F32(a), ValueModel::F32(b), ValueModel::F32(c)])
}

/// Builds the array of three single-precision numbers.
fn three_msgpack(a: F32Bits, b: F32Bits, c: F32Bits) -> (out: WireValue)
    ensures
        out@ == three_value(a, b, c),
{
    let items = vec![WireValue::F32(a), WireValue::F32(b), WireValue::F32(c)];
    assert(models_of(items@) =~= three_value(a, b, c)->Array_0);
    WireValue::Array(items)
}

impl<F> PIDGains<F> {
    /// The gains with the given values.
    pub fn new(kp: F, ki: F, kd: F) -> (out: Self)
        ensures
            out == (PIDGains { kp, ki, kd }),
    {
        PIDGains { kp, ki, kd }
    }
}

impl PIDGains<F32Bits> {
    /// The value that stands for the gains on the wire: the array of `kp`,
    /// `ki` and `kd`.
    pub fn to_msgpack(&self) -> (out: WireValue)
        ensures
            out@ == three_value(self.kp, self.ki, self.kd),
    {
        three_msgpack(self.kp, self.ki, self.kd)
    }
}

/// The gains of the angle rate controller or of the angle level controller.
#[derive(Debug, Clone, Copy, PartialEq, Eq)]
pub struct AngularControllerGains<F> {
    /// The gains for the roll axis.
    pub roll_gains: PIDGains<F>,
    /// The gains for the pitch axis.
    pub pitch_gains: PIDGains<F>,
    /// The gains for the yaw axis.
    pub yaw_gains: PIDGains<F>,
}

impl<F> AngularControllerGains<F> {
    /// The gains of the three axes.
    pub fn new(roll_gains: PIDGains<F>, pitch_gains: PIDGains<F>, yaw_gains: PIDGains<F>) -> (out:
        Self)
        ensures
            out == (AngularControllerGains { roll_gains, pitch_gains, yaw_gains }),
    {
        AngularControllerGains { roll_gains, pitch_gains, yaw_gains }
    }
}

/// The arguments that stand for angular gains on the wire: the proportional
/// gains of roll, pitch and yaw; the integrator gains of yaw, roll and pitch;
/// the derivative gains of roll, pitch and yaw; and the vehicle's name.
pub open spec fn angular_gains_params(
    gains: AngularControllerGains<F32Bits>,
    vehicle_name: Seq<char>,
) -> Seq<ValueModel> {
    seq![
        three_value(gains.roll_gains.kp, gains.pitch_gains.kp, gains.yaw_gains.kp),
        three_value(gains.yaw_gains.ki, gains.roll_gains.ki, gains.pitch_gains.ki),
        three_value(gains.roll_gains.kd, gains.pitch_gains.kd, gains.yaw_gains.kd),
        ValueModel::String(vehicle_name),
    ]
}

impl AngularControllerGains<F32Bits> {
    /// The arguments that stand for the gains on the wire.
    pub fn as_msgpack(&self, vehicle_name: &str) -> (out: Vec<WireValue>)
        ensures
            models_of(out@) == angular_gains_params(*self, vehicle_name@),
    {
        let kps = three_msgpack(self.roll_gains.kp, self.pitch_gains.kp, self.yaw_gains.kp);
        let kis = three_msgpack(self.yaw_gains.ki, self.roll_gains.ki, self.pitch_gains.ki);
        let kds = three_msgpack(self.roll_gains.kd, self.pitch_gains.kd, self.yaw_gains.kd);
        let out = vec![kps, kis, kds, WireValue::from_str(vehicle_name)];
        assert(models_of(out@) =~= angular_gains_params(*self, vehicle_name@));
        out
    }
}

/// The gains of the velocity controller or of the position controller.
#[derive(Debug, Clone, Copy, PartialEq, Eq)]
pub struct LinearControllerGains<F> {
    /// The gains for the x axis.
    pub x_gains: PIDGains<F>,
    /// The gains for the y axis.
    pub y_gains: PIDGains<F>,
    /// The gains for the z axis.
    pub z_gains: PIDGains<F>,
}

impl<F> LinearControllerGains<F> {
    /// The gains of the three axes.
    pub fn new(x_gains: PIDGains<F>, y_gains: PIDGains<F>, z_gains: PIDGains<F>) -> (out: Self)
        ensures
            out == (LinearControllerGains { x_gains, y_gains, z_gains }),
    {
        LinearControllerGains { x_gains, y_gains, z_gains }
    }
}

/// The arguments that stand for linear gains on the wire: the proportional,
/// the integrator and the derivative gains, each of x, y and z, and the
/// vehicle's name.
pub open spec fn linear_gains_params(
    gains: LinearControllerGains<F32Bits>,
    vehicle_name: Seq<char>,
) -> Seq<ValueModel> {
    seq![
        three_value(gains.x_gains.kp, gains.y_gains.kp, gains.z_gains.kp),
        three_value(gains.x_gains.ki, gains.y_gains.ki, gains.z_gains.ki),
        three_value(gains.x_gains.kd, gains.y_gains.kd, gains.z_gains.kd),
        ValueModel::String(vehicle_name),
    ]
}

impl LinearControllerGains<F32Bits> {
    /// The arguments that stand for the gains on the wire.
    pub fn as_msgpack(&self, vehicle_name: &str) -> (out: Vec<WireValue>)
        ensures
            models_of(out@) == linear_gains_params(*self, vehicle_name@),
    {
        let kps = three_msgpack(self.x_gains.kp, self.y_gains.kp, self.z_gains.kp);
        let kis = three_msgpack(self.x_gains.ki, self.y_gains.ki, self.z_gains.ki);
        let kds = three_msgpack(self.x_gains.kd, self.y_gains.kd, self.z_gains.kd);
        let out = vec![kps, kis, kds, WireValue::from_str(vehicle_name)];
        assert(models_of(out@) =~= linear_gains_params(*self, vehicle_name@));
        out
    }
}

} // verus!
