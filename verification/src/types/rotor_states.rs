//! The state of a multirotor's rotors.

use crate::error::DecodeError;
use crate::message::{Response, ResponseModel};
use crate::types::number::{entry, entry_at, first_three, three_numbers, Number, NumberModel};
use crate::value::{models_of, ValueModel, WireValue};
use vstd::prelude::*;

verus! {

/// The state of one rotor.
#[derive(Debug, Clone, Copy, PartialEq, Eq)]
pub struct RotorState<F> {
    pub thrust: F,
    pub torque_scaler: F,
    pub speed: F,
}

impl View for RotorState<Number> {
    type V = RotorState<NumberModel>;

    open spec fn view(&self) -> RotorState<NumberModel> {
        RotorState { thrust: self.thrust@, torque_scaler: self.torque_scaler@, speed: self.speed@ }
    }
}

/// The rotor state that a value stands for: the first three of the numbers
/// that it lists, as thrust, torque scaler and speed.
pub open spec fn rotor_of(value: ValueModel) -> Option<RotorState<NumberModel>> {
    match three_numbers(value) {
        Some((thrust, torque_scaler, speed)) => Some(RotorState { thrust, torque_scaler, speed }),
        None => None,
    }
}

impl RotorState<Number> {
    /// Reads a rotor's state off a value.
    pub fn from_value(msgpack: &WireValue) -> (out: Result<Self, DecodeError>)
        ensures
            match out {
                Ok(rotor) => rotor_of(msgpack@) == Some(rotor@),
                Err(error) => rotor_of(msgpack@).is_none() && error == DecodeError::UnexpectedShape,
            },
    {
        match first_three(msgpack) {
            Some((thrust, torque_scaler, speed)) => Ok(RotorState { thrust, torque_scaler, speed }),
            None => Err(DecodeError::UnexpectedShape),
        }
    }
}

/// The states of the four rotors of a multirotor, and when they were taken.
#[derive(Debug, Clone, Copy, PartialEq, Eq)]
pub struct RotorStates<F> {
    pub rotors: [RotorState<F>; 4],
    pub timestamp: u64,
}

/// The mathematical content of a [`RotorStates`].
pub struct RotorStatesModel {
    pub rotors: Seq<RotorState<NumberModel>>,
    pub timestamp: u64,
}

impl View for RotorStates<Number> {
    type V = RotorStatesModel;

    open spec fn view(&self) -> RotorStatesModel {
        RotorStatesModel {
            rotors: Seq::new(4, |i: int| self.rotors@[i]@),
            timestamp: self.timestamp,
        }
    }
}

/// The rotor states that a sequence of values stands for, if every one of
/// them is a rotor state.
pub open spec fn rotors_of(items: Seq<ValueModel>) -> Option<Seq<RotorState<NumberModel>>> {
    if forall|i: int| 0 <= i < items.len() ==> rotor_of(#[trigger] items[i]).is_some() {
        Some(Seq::new(items.len(), |i: int| rotor_of(items[i]).unwrap()))
    } else {
        None
    }
}

/// The rotor states that a response carries. The first field of its result is
/// an array of at least four rotor states, of which the first four count, and
/// the second field is the time as an unsigned integer. A response with an
/// error carries none.
pub open spec fn rotor_states_of(response: ResponseModel) -> Option<RotorStatesModel> {
    match response.result {
        Ok(value) => match (entry(value, 0), entry(value, 1)) {
            (Some(ValueModel::Array(items)), Some(time)) => match (rotors_of(items), time.as_u64()) {
                (Some(rotors), Some(timestamp)) => if rotors.len() >= 4 {
                    Some(RotorStatesModel { rotors: rotors.take(4), timestamp })
                } else {
                    None
                },
                _ => None,
            },
            _ => None,
        },
        Err(_) => None,
    }
}

/// Reads the rotor states off an array of values.
fn read_rotors(payload: &Vec<WireValue>) -> (out: Option<Vec<RotorState<Number>>>)
    ensures
        match out {
            Some(rotors) => rotors_of(models_of(payload@)) == Some(
                Seq::new(rotors@.len(), |i: int| rotors@[i]@),
            ),
            None => rotors_of(models_of(payload@)).is_none(),
        },
{
    let ghost items = models_of(payload@);
    let mut rotors: Vec<RotorState<Number>> = Vec::new();
    let mut i: usize = 0;
    while i < payload.len()
        invariant
            i <= payload.len(),
            items == models_of(payload@),
            rotors@.len() == i,
            forall|j: int| 0 <= j < i ==> rotor_of(#[trigger] items[j]).is_some(),
            forall|j: int| 0 <= j < i ==> (#[trigger] rotors@[j])@ == rotor_of(items[j]).unwrap(),
        decreases payload.len() - i,
    {
        match RotorState::from_value(&payload[i]) {
            Ok(rotor) => {
                rotors.push(rotor);
            },
            Err(_) => {
                assert(rotor_of(items[i as int]).is_none());
                return None;
            },
        }
        i += 1;
    }
    assert(Seq::new(rotors@.len(), |i: int| rotors@[i]@) =~= rotors_of(items).unwrap());
    Some(rotors)
}

impl RotorStates<Number> {
    /// Reads the rotor states off a response.
    pub fn from_response(msgpack: &Response) -> (out: Result<Self, DecodeError>)
        ensures
            match out {
                Ok(states) => rotor_states_of(msgpack@) == Some(states@),
                Err(error) => rotor_states_of(msgpack@).is_none() && error
                    == DecodeError::UnexpectedShape,
            },
    {
        let res = match &msgpack.result {
            Ok(res) => res,
            Err(_) => {
                return Err(DecodeError::UnexpectedShape);
            },
        };
        let (first, second) = match (entry_at(res, 0), entry_at(res, 1)) {
            (Some(first), Some(second)) => (first, second),
            _ => {
                return Err(DecodeError::UnexpectedShape);
            },
        };
        let payload = match first {
            WireValue::Array(payload) => payload,
            _ => {
                return Err(DecodeError::UnexpectedShape);
            },
        };
        assert(first@ == ValueModel::Array(models_of(payload@)));
        match (read_rotors(payload), second.as_u64()) {
            (Some(rotors), Some(timestamp)) => if rotors.len() >= 4 {
                let states = RotorStates {
                    rotors: [rotors[0], rotors[1], rotors[2], rotors[3]],
                    timestamp,
                };
                assert(states@.rotors =~= rotors_of(models_of(payload@)).unwrap().take(4));
                Ok(states)
            } else {
                Err(DecodeError::UnexpectedShape)
            },
            _ => Err(DecodeError::UnexpectedShape),
        }
    }
}

} // verus!
