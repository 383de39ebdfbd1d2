//! The dynamically typed value tree that every message carries.
//!
//! [`WireValue`] is the executable tree; [`ValueModel`] is its mathematical
//! counterpart, reached with `@`, over which all contracts are stated.

pub use crate::integer::Integer;
use vstd::prelude::*;

verus! {

/// A MessagePack value.
///
/// The two floating-point variants hold the IEEE-754 bit pattern of the number.
#[derive(Debug, PartialEq, Eq)]
pub enum WireValue {
    /// The absent value.
    Nil,
    /// `true` or `false`.
    Boolean(bool),
    /// A whole number.
    Integer(Integer),
    /// A single-precision number, by its bit pattern.
    F32(u32),
    /// A double-precision number, by its bit pattern.
    F64(u64),
    /// A text string.
    String(String),
    /// A string whose bytes are not valid UTF-8.
    RawString(Vec<u8>),
    /// A byte string.
    Binary(Vec<u8>),
    /// A sequence of values.
    Array(Vec<WireValue>),
    /// A sequence of key and value pairs, in wire order.
    Dict(Vec<(WireValue, WireValue)>),
    /// An application-defined extension: a type tag and its bytes.
    Ext(i8, Vec<u8>),
}

/// The mathematical value that a [`WireValue`] stands for.
pub enum ValueModel {
    Nil,
    Boolean(bool),
    Integer(int),
    F32(u32),
    F64(u64),
    String(Seq<char>),
    RawString(Seq<u8>),
    Binary(Seq<u8>),
    Array(Seq<ValueModel>),
    Dict(Seq<(ValueModel, ValueModel)>),
    Ext(i8, Seq<u8>),
}

/// The models of a sequence of values, element by element.
pub open spec fn models_of(items: Seq<WireValue>) -> Seq<ValueModel>
    decreases items,
{
    Seq::new(
        items.len(),
        |i: int|
            if 0 <= i < items.len() {
                items[i].view()
            } else {
                ValueModel::Nil
            },
    )
}

/// The models of a sequence of key and value pairs, pair by pair.
pub open spec fn pair_models_of(entries: Seq<(WireValue, WireValue)>) -> Seq<
    (ValueModel, ValueModel),
>
    decreases entries,
{
    Seq::new(
        entries.len(),
        |i: int|
            if 0 <= i < entries.len() {
                (entries[i].0.view(), entries[i].1.view())
            } else {
                (ValueModel::Nil, ValueModel::Nil)
            },
    )
}

impl View for WireValue {
    type V = ValueModel;

    open spec fn view(&self) -> ValueModel
        decreases self,
    {
        match self {
            WireValue::Nil => ValueModel::Nil,
            WireValue::Boolean(b) => ValueModel::Boolean(*b),
            WireValue::Integer(n) => ValueModel::Integer(n@),
            WireValue::F32(bits) => ValueModel::F32(*bits),
            WireValue::F64(bits) => ValueModel::F64(*bits),
            WireValue::String(s) => ValueModel::String(s@),
            WireValue::RawString(bytes) => ValueModel::RawString(bytes@),
            WireValue::Binary(bytes) => ValueModel::Binary(bytes@),
            WireValue::Array(items) => ValueModel::Array(models_of(items@)),
            WireValue::Dict(entries) => ValueModel::Dict(pair_models_of(entries@)),
            WireValue::Ext(tag, bytes) => ValueModel::Ext(*tag, bytes@),
        }
    }
}

impl ValueModel {
    /// The boolean that the value holds, if it is one.
    pub open spec fn as_bool(self) -> Option<bool> {
        match self {
            ValueModel::Boolean(b) => Some(b),
            _ => None,
        }
    }

    /// The number that the value holds, if it is an integer that fits a `u64`.
    pub open spec fn as_u64(self) -> Option<u64> {
        match self {
            ValueModel::Integer(n) => if 0 <= n <= u64::MAX {
                Some(n as u64)
            } else {
                None
            },
            _ => None,
        }
    }

    /// The number that the value holds, if it is an integer that fits an `i64`.
    pub open spec fn as_i64(self) -> Option<i64> {
        match self {
            ValueModel::Integer(n) => if i64::MIN <= n <= i64::MAX {
                Some(n as i64)
            } else {
                None
            },
            _ => None,
        }
    }

    /// The text that the value holds, if it is a text string.
    pub open spec fn as_str(self) -> Option<Seq<char>> {
        match self {
            ValueModel::String(text) => Some(text),
            _ => None,
        }
    }

    /// The bytes that the value holds, if it is a byte string or a string of
    /// either kind; a text string gives its UTF-8 encoding.
    pub open spec fn as_slice(self) -> Option<Seq<u8>> {
        match self {
            ValueModel::Binary(bytes) => Some(bytes),
            ValueModel::RawString(bytes) => Some(bytes),
            ValueModel::String(text) => Some(vstd::utf8::encode_utf8(text)),
            _ => None,
        }
    }

    /// The items that the value holds, if it is an array.
    pub open spec fn as_array(self) -> Option<Seq<ValueModel>> {
        match self {
            ValueModel::Array(items) => Some(items),
            _ => None,
        }
    }

    /// The pairs that the value holds, if it is a sequence of pairs.
    pub open spec fn as_dict(self) -> Option<Seq<(ValueModel, ValueModel)>> {
        match self {
            ValueModel::Dict(entries) => Some(entries),
            _ => None,
        }
    }
}

/// A copy of a byte vector.
fn copy_bytes(bytes: &Vec<u8>) -> (out: Vec<u8>)
    ensures
        out@ == bytes@,
{
    let mut out: Vec<u8> = Vec::new();
    out.extend_from_slice(bytes.as_slice());
    assert(out@ =~= bytes@);
    out
}

impl WireValue {
    /// A copy of the value, with everything below it.
    pub fn duplicate(&self) -> (out: WireValue)
        ensures
            out@ == self@,
        decreases self,
    {
        match self {
            WireValue::Nil => WireValue::Nil,
            WireValue::Boolean(b) => WireValue::Boolean(*b),
            WireValue::Integer(n) => WireValue::Integer(*n),
            WireValue::F32(bits) => WireValue::F32(*bits),
            WireValue::F64(bits) => WireValue::F64(*bits),
            WireValue::String(text) => WireValue::String(text.clone()),
            WireValue::RawString(bytes) => WireValue::RawString(copy_bytes(bytes)),
            WireValue::Binary(bytes) => WireValue::Binary(copy_bytes(bytes)),
            WireValue::Array(items) => {
                let mut out: Vec<WireValue> = Vec::new();
                let mut i: usize = 0;
                while i < items.len()
                    invariant
                        i <= items@.len(),
                        out@.len() == i,
                        self == WireValue::Array(*items),
                        forall|j: int| 0 <= j < i ==> (#[trigger] out@[j])@ == items@[j]@,
                    decreases items@.len() - i,
                {
                    proof {
                        assert(decreases_to!(*self => self->Array_0));
                        assert(decreases_to!(*items => items@));
                        assert(decreases_to!(items@ => items@[i as int]));
                    }
                    out.push(items[i].duplicate());
                    i += 1;
                }
                assert(models_of(out@) =~= models_of(items@));
                WireValue::Array(out)
            },
            WireValue::Dict(entries) => {
                let mut out: Vec<(WireValue, WireValue)> = Vec::new();
                let mut i: usize = 0;
                while i < entries.len()
                    invariant
                        i <= entries@.len(),
                        out@.len() == i,
                        self == WireValue::Dict(*entries),
                        forall|j: int|
                            0 <= j < i ==> (#[trigger] out@[j]).0@ == entries@[j].0@ && out@[j].1@
                                == entries@[j].1@,
                    decreases entries@.len() - i,
                {
                    proof {
                        assert(decreases_to!(*self => self->Dict_0));
                        assert(decreases_to!(*entries => entries@));
                        assert(decreases_to!(entries@ => entries@[i as int]));
                        assert(decreases_to!(entries@[i as int] => entries@[i as int].0));
                        assert(decreases_to!(entries@[i as int] => entries@[i as int].1));
                    }
                    let key = entries[i].0.duplicate();
                    let value = entries[i].1.duplicate();
                    out.push((key, value));
                    i += 1;
                }
                assert(pair_models_of(out@) =~= pair_models_of(entries@));
                WireValue::Dict(out)
            },
            WireValue::Ext(tag, bytes) => WireValue::Ext(*tag, copy_bytes(bytes)),
        }
    }

    /// The value of the unsigned integer `n`.
    pub fn from_u64(n: u64) -> (out: WireValue)
        ensures
            out@ == ValueModel::Integer(n as int),
    {
        WireValue::Integer(Integer::from_u64(n))
    }

    /// The value of the signed integer `n`.
    pub fn from_i64(n: i64) -> (out: WireValue)
        ensures
            out@ == ValueModel::Integer(n as int),
    {
        WireValue::Integer(Integer::from_i64(n))
    }

    /// The text string with the characters of `text`.
    pub fn from_str(text: &str) -> (out: WireValue)
        ensures
            out@ == ValueModel::String(text@),
    {
        WireValue::String(text.to_owned())
    }

    /// Whether the value is nil.
    pub fn is_nil(&self) -> (out: bool)
        ensures
            out == (self@ is Nil),
    {
        match self {
            WireValue::Nil => true,
            _ => false,
        }
    }

    /// The boolean that the value holds, if it is one.
    pub fn as_bool(&self) -> (out: Option<bool>)
        ensures
            out == self@.as_bool(),
    {
        match self {
            WireValue::Boolean(b) => Some(*b),
            _ => None,
        }
    }

    /// The number that the value holds, if it is an integer that fits a `u64`.
    pub fn as_u64(&self) -> (out: Option<u64>)
        ensures
            out == self@.as_u64(),
    {
        match self {
            WireValue::Integer(n) => n.as_u64(),
            _ => None,
        }
    }

    /// The number that the value holds, if it is an integer that fits an `i64`.
    pub fn as_i64(&self) -> (out: Option<i64>)
        ensures
            out == self@.as_i64(),
    {
        match self {
            WireValue::Integer(n) => n.as_i64(),
            _ => None,
        }
    }

    /// The text that the value holds, if it is a text string.
    pub fn as_str(&self) -> (out: Option<&str>)
        ensures
            match out {
                Some(text) => self@.as_str() == Some(text@),
                None => self@.as_str().is_none(),
            },
    {
        match self {
            WireValue::String(text) => Some(text.as_str()),
            _ => None,
        }
    }

    /// The bytes that the value holds, if it is a byte string or a string of
    /// either kind.
    pub fn as_slice(&self) -> (out: Option<&[u8]>)
        ensures
            match out {
                Some(bytes) => self@.as_slice() == Some(bytes@),
                None => self@.as_slice().is_none(),
            },
    {
        match self {
            WireValue::Binary(bytes) => Some(bytes.as_slice()),
            WireValue::RawString(bytes) => Some(bytes.as_slice()),
            WireValue::String(text) => Some(text.as_str().as_bytes()),
            _ => None,
        }
    }

    /// The items that the value holds, if it is an array.
    pub fn as_array(&self) -> (out: Option<&Vec<WireValue>>)
        ensures
            match out {
                Some(items) => self@.as_array() == Some(models_of(items@)),
                None => self@.as_array().is_none(),
            },
    {
        match self {
            WireValue::Array(items) => Some(items),
            _ => None,
        }
    }

    /// The pairs that the value holds, if it is a sequence of pairs.
    pub fn as_map(&self) -> (out: Option<&Vec<(WireValue, WireValue)>>)
        ensures
            match out {
                Some(entries) => self@.as_dict() == Some(pair_models_of(entries@)),
                None => self@.as_dict().is_none(),
            },
    {
        match self {
            WireValue::Dict(entries) => Some(entries),
            _ => None,
        }
    }
}

} // verus!
