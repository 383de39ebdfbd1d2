//! Numbers as they stand on the wire.
//!
//! A field that holds a floating-point number in a typed result may arrive as
//! an integer, as a single-precision or as a double-precision number. The
//! library does no floating-point arithmetic: it hands such a field on as the
//! [`Number`] that arrived, and takes numbers to send as bit patterns.

use crate::error::DecodeError;
use crate::value::{pair_models_of, Integer, ValueModel, WireValue};
use vstd::prelude::*;

verus! {

/// The IEEE-754 bit pattern of a single-precision number.
pub type F32Bits = u32;

/// The IEEE-754 bit pattern of a double-precision number.
pub type F64Bits = u64;

/// The bit pattern of the single-precision number `1.0`.
pub const ONE: F32Bits = 0x3f80_0000;

/// The bit pattern of the single-precision number `-1.0`.
pub const MINUS_ONE: F32Bits = 0xbf80_0000;

/// The sign bit of a single-precision number.
pub const SIGN_BIT: F32Bits = 0x8000_0000;

/// The bit pattern of the number with the opposite sign: the same bits, but
/// for the sign bit.
pub open spec fn negated(bits: F32Bits) -> F32Bits {
    bits ^ SIGN_BIT
}

/// The bit pattern of the number with the opposite sign.
#[verifier::when_used_as_spec(negated)]
pub fn negate(bits: F32Bits) -> (out: F32Bits)
    ensures
        out == negated(bits),
{
    bits ^ SIGN_BIT
}

/// The bit pattern given, or `otherwise` where none is given.
pub open spec fn bits_or(bits: Option<F32Bits>, otherwise: F32Bits) -> F32Bits {
    match bits {
        Some(bits) => bits,
        None => otherwise,
    }
}

/// A value that is a number.
#[derive(Clone, Copy, Debug, PartialEq, Eq)]
pub enum Number {
    /// A whole number.
    Integer(Integer),
    /// A single-precision number, by its bit pattern.
    F32(F32Bits),
    /// A double-precision number, by its bit pattern.
    F64(F64Bits),
}

/// The mathematical content of a [`Number`].
pub enum NumberModel {
    Integer(int),
    F32(F32Bits),
    F64(F64Bits),
}

impl View for Number {
    type V = NumberModel;

    open spec fn view(&self) -> NumberModel {
        match self {
            Number::Integer(n) => NumberModel::Integer(n@),
            Number::F32(bits) => NumberModel::F32(*bits),
            Number::F64(bits) => NumberModel::F64(*bits),
        }
    }
}

/// The number that a value holds, if it is an integer or a floating-point
/// number.
pub open spec fn number_of(value: ValueModel) -> Option<NumberModel> {
    match value {
        ValueModel::Integer(n) => Some(NumberModel::Integer(n)),
        ValueModel::F32(bits) => Some(NumberModel::F32(bits)),
        ValueModel::F64(bits) => Some(NumberModel::F64(bits)),
        _ => None,
    }
}

/// The numbers that the values of a sequence of pairs hold, if every one of
/// them is a number.
pub open spec fn numbers_of(entries: Seq<(ValueModel, ValueModel)>) -> Option<Seq<NumberModel>> {
    if forall|i: int| 0 <= i < entries.len() ==> number_of((#[trigger] entries[i]).1).is_some() {
        Some(Seq::new(entries.len(), |i: int| number_of(entries[i].1).unwrap()))
    } else {
        None
    }
}

/// The numbers listed by a value: the value is a sequence of pairs, and the
/// second of every pair is a number. No other value lists numbers.
pub open spec fn listed_numbers(value: ValueModel) -> Option<Seq<NumberModel>> {
    match value {
        ValueModel::Dict(entries) => numbers_of(entries),
        _ => None,
    }
}

/// The models of a sequence of numbers, one by one.
pub open spec fn number_models(numbers: Seq<Number>) -> Seq<NumberModel> {
    Seq::new(numbers.len(), |i: int| numbers[i]@)
}

impl Number {
    /// The number that a value holds, if it is an integer or a floating-point
    /// number.
    pub fn from_value(value: &WireValue) -> (out: Option<Number>)
        ensures
            match out {
                Some(number) => number_of(value@) == Some(number@),
                None => number_of(value@).is_none(),
            },
    {
        match value {
            WireValue::Integer(n) => Some(Number::Integer(*n)),
            WireValue::F32(bits) => Some(Number::F32(*bits)),
            WireValue::F64(bits) => Some(Number::F64(*bits)),
            _ => None,
        }
    }

    /// The numbers listed by a value, in order.
    pub fn list(value: &WireValue) -> (out: Result<Vec<Number>, DecodeError>)
        ensures
            match out {
                Ok(numbers) => listed_numbers(value@) == Some(number_models(numbers@)),
                Err(error) => listed_numbers(value@).is_none() && error
                    == DecodeError::UnexpectedShape,
            },
    {
        let payload = match value.as_map() {
            Some(payload) => payload,
            None => {
                return Err(DecodeError::UnexpectedShape);
            },
        };
        let ghost entries = pair_models_of(payload@);
        let mut numbers: Vec<Number> = Vec::new();
        let mut i: usize = 0;
        while i < payload.len()
            invariant
                i <= payload.len(),
                entries == pair_models_of(payload@),
                value@ == ValueModel::Dict(entries),
                numbers@.len() == i,
                forall|j: int| 0 <= j < i ==> number_of((#[trigger] entries[j]).1).is_some(),
                forall|j: int|
                    0 <= j < i ==> (#[trigger] numbers@[j])@ == number_of(entries[j].1).unwrap(),
            decreases payload.len() - i,
        {
            match Number::from_value(&payload[i].1) {
                Some(number) => {
                    numbers.push(number);
                },
                None => {
                    assert(number_of(entries[i as int].1).is_none());
                    return Err(DecodeError::UnexpectedShape);
                },
            }
            i += 1;
        }
        assert(number_models(numbers@) =~= numbers_of(entries).unwrap());
        Ok(numbers)
    }
}

/// The first three of the numbers listed by a value; a value that lists
/// fewer, or lists something that is no number, has none.
pub open spec fn three_numbers(value: ValueModel) -> Option<(NumberModel, NumberModel, NumberModel)> {
    match listed_numbers(value) {
        Some(numbers) => if numbers.len() >= 3 {
            Some((numbers[0], numbers[1], numbers[2]))
        } else {
            None
        },
        None => None,
    }
}

/// The first four of the numbers listed by a value; a value that lists fewer,
/// or lists something that is no number, has none.
pub open spec fn four_numbers(value: ValueModel) -> Option<
    (NumberModel, NumberModel, NumberModel, NumberModel),
> {
    match listed_numbers(value) {
        Some(numbers) => if numbers.len() >= 4 {
            Some((numbers[0], numbers[1], numbers[2], numbers[3]))
        } else {
            None
        },
        None => None,
    }
}

/// Reads the first three of the numbers listed by a value.
pub fn first_three(value: &WireValue) -> (out: Option<(Number, Number, Number)>)
    ensures
        match out {
            Some(found) => three_numbers(value@) == Some((found.0@, found.1@, found.2@)),
            None => three_numbers(value@).is_none(),
        },
{
    match Number::list(value) {
        Ok(numbers) => if numbers.len() >= 3 {
            Some((numbers[0], numbers[1], numbers[2]))
        } else {
            None
        },
        Err(_) => None,
    }
}

/// Reads the first four of the numbers listed by a value.
pub fn first_four(value: &WireValue) -> (out: Option<(Number, Number, Number, Number)>)
    ensures
        match out {
            Some(found) => four_numbers(value@) == Some((found.0@, found.1@, found.2@, found.3@)),
            None => four_numbers(value@).is_none(),
        },
{
    match Number::list(value) {
        Ok(numbers) => if numbers.len() >= 4 {
            Some((numbers[0], numbers[1], numbers[2], numbers[3]))
        } else {
            None
        },
        Err(_) => None,
    }
}

/// The second of the pair at position `i` of a value that is a sequence of
/// pairs; no other value, and no other position, has one.
pub open spec fn entry(value: ValueModel, i: int) -> Option<ValueModel> {
    match value {
        ValueModel::Dict(entries) => if 0 <= i < entries.len() {
            Some(entries[i].1)
        } else {
            None
        },
        _ => None,
    }
}

/// Reads the second of the pair at position `i`.
pub fn entry_at(value: &WireValue, i: usize) -> (out: Option<&WireValue>)
    ensures
        match out {
            Some(found) => entry(value@, i as int) == Some(found@),
            None => entry(value@, i as int).is_none(),
        },
{
    match value {
        WireValue::Dict(entries) => {
            assert(value@ == ValueModel::Dict(pair_models_of(entries@)));
            assert(pair_models_of(entries@).len() == entries@.len());
            if i < entries.len() {
                assert(pair_models_of(entries@)[i as int].1 == entries@[i as int].1@);
                Some(&entries[i].1)
            } else {
                None
            }
        },
        _ => None,
    }
}

} // verus!
