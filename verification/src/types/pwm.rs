//! Motor signals.

use crate::types::number::{F32Bits, ONE};
use vstd::prelude::*;

verus! {

/// The bit pattern of positive infinity, the largest that is a number.
pub const INFINITY: F32Bits = 0x7f80_0000;

/// The largest bit pattern whose sign bit is clear.
pub const SIGN_CLEAR_MAX: F32Bits = 0x7fff_ffff;

/// Whether a single-precision number is accepted as a motor signal: its sign
/// bit is clear and it is not greater than `1.0`. The patterns accepted are
/// those of the numbers from `0.0` to `1.0` and, since it compares greater
/// than nothing, those of a NaN with a clear sign bit.
pub open spec fn is_signal(bits: F32Bits) -> bool {
    bits <= ONE || INFINITY < bits <= SIGN_CLEAR_MAX
}

/// Whether a single-precision number is accepted as a motor signal.
#[verifier::when_used_as_spec(is_signal)]
pub fn signal_is_valid(bits: F32Bits) -> (out: bool)
    ensures
        out == is_signal(bits),
{
    bits <= ONE || (INFINITY < bits && bits <= SIGN_CLEAR_MAX)
}

/// The signals for the four motors of a quadrotor.
#[derive(Clone, Copy, Debug, PartialEq, Eq)]
pub struct PWM<F> {
    /// The signal for the front right motor.
    pub front_right_pwm: F,
    /// The signal for the rear left motor.
    pub rear_left_pwm: F,
    /// The signal for the front left motor.
    pub front_left_pwm: F,
    /// The signal for the rear right motor.
    pub rear_right_pwm: F,
}

impl PWM<F32Bits> {
    /// Whether all four signals are accepted.
    pub open spec fn wf(&self) -> bool {
        &&& is_signal(self.front_right_pwm)
        &&& is_signal(self.rear_left_pwm)
        &&& is_signal(self.front_left_pwm)
        &&& is_signal(self.rear_right_pwm)
    }

    /// The four signals, each of which must be accepted.
    pub fn new(
        front_right_pwm: F32Bits,
        rear_left_pwm: F32Bits,
        front_left_pwm: F32Bits,
        rear_right_pwm: F32Bits,
    ) -> (out: Self)
        requires
            is_signal(front_right_pwm),
            is_signal(rear_left_pwm),
            is_signal(front_left_pwm),
            is_signal(rear_right_pwm),
        ensures
            out.wf(),
            out == (PWM { front_right_pwm, rear_left_pwm, front_left_pwm, rear_right_pwm }),
    {
        PWM { front_right_pwm, rear_left_pwm, front_left_pwm, rear_right_pwm }
    }

    /// The four signals, or `None` where one of them is not accepted.
    pub fn checked(
        front_right_pwm: F32Bits,
        rear_left_pwm: F32Bits,
        front_left_pwm: F32Bits,
        rear_right_pwm: F32Bits,
    ) -> (out: Option<Self>)
        ensures
            out == (if is_signal(front_right_pwm) && is_signal(rear_left_pwm) && is_signal(
                front_left_pwm,
            ) && is_signal(rear_right_pwm) {
                Some(PWM { front_right_pwm, rear_left_pwm, front_left_pwm, rear_right_pwm })
            } else {
                None::<PWM<F32Bits>>
            }),
    {
        if signal_is_valid(front_right_pwm) && signal_is_valid(rear_left_pwm) && signal_is_valid(
            front_left_pwm,
        ) && signal_is_valid(rear_right_pwm) {
            Some(PWM::new(front_right_pwm, rear_left_pwm, front_left_pwm, rear_right_pwm))
        } else {
            None
        }
    }
}

} // verus!
