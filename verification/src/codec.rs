//! The byte encoding of values, as done by the `rmpv` crate.
//!
//! Nothing in this file is proved: it is the boundary to `rmpv`. The two spec
//! functions name what `rmpv` computes, and the wrappers say that they return
//! exactly that.

use crate::value::{Integer, ValueModel, WireValue};
use rmpv::Value as Wire;
use vstd::prelude::*;

verus! {

#[verifier::external_type_specification]
#[verifier::external_body]
pub struct ExWire(rmpv::Value);

/// Why reading a value from a byte buffer stopped without a value.
#[derive(Clone, Copy, Debug, PartialEq, Eq, Structural)]
pub enum ReadFailure {
    /// The buffer ended before the value did.
    Truncated,
    /// The value nests deeper than the reader follows.
    DepthLimitExceeded,
    /// The reader reported any other failure.
    Io,
}

/// What `rmpv::decode::read_value` makes of a buffer that starts with
/// `bytes`: the value at the front and the number of bytes it takes up, or
/// the reason why there is none.
pub uninterp spec fn parsed(bytes: Seq<u8>) -> Result<(ValueModel, nat), ReadFailure>;

/// The bytes that `rmpv::encode::write_value` writes for `value` into an empty
/// vector.
pub uninterp spec fn serialized(value: ValueModel) -> Seq<u8>;

/// Calls `rmpv::decode::read_value` on a cursor over `bytes` and reports the
/// cursor's position after a value was read.
///
/// Claimed of it: the outcome depends on `bytes` alone.
#[verifier::external_body]
pub(crate) fn read_value(bytes: &[u8]) -> (out: Result<(WireValue, usize), ReadFailure>)
    ensures
        match out {
            Ok((value, taken)) => parsed(bytes@) == Ok::<(ValueModel, nat), ReadFailure>(
                (value@, taken as nat),
            ),
            Err(failure) => parsed(bytes@) == Err::<(ValueModel, nat), ReadFailure>(failure),
        },
{
    let mut cursor = std::io::Cursor::new(bytes);
    match rmpv::decode::read_value(&mut cursor) {
        Ok(value) => Ok((from_wire(value), cursor.position() as usize)),
        Err(rmpv::decode::Error::DepthLimitExceeded) => Err(ReadFailure::DepthLimitExceeded),
        Err(e) if e.kind() == std::io::ErrorKind::UnexpectedEof => Err(ReadFailure::Truncated),
        Err(_) => Err(ReadFailure::Io),
    }
}

/// Calls `rmpv::encode::write_value` on an empty vector and hands back the
/// vector.
///
/// Claimed of it: the bytes written depend on the value alone. The call's
/// result is not looked at: `rmpv` reports an error only where the writer
/// does, and a vector takes every byte it is given.
#[verifier::external_body]
pub(crate) fn write_value(value: &WireValue) -> (out: Vec<u8>)
    ensures
        out@ == serialized(value@),
{
    let mut bytes = Vec::new();
    let _ = rmpv::encode::write_value(&mut bytes, &to_wire(value));
    bytes
}

/// Turns a value of `rmpv` into the library's own, variant by variant.
#[verifier::external_body]
fn from_wire(value: Wire) -> WireValue {
    match value {
        Wire::Array(items) => WireValue::Array(items.into_iter().map(from_wire).collect()),
        Wire::Map(entries) => WireValue::Dict(
            entries.into_iter().map(|(k, v)| (from_wire(k), from_wire(v))).collect(),
        ),
        other => leaf_from_wire(other),
    }
}

/// Turns a value of `rmpv` that holds no further values into the library's own.
#[verifier::external_body]
fn leaf_from_wire(value: Wire) -> WireValue {
    match value {
        Wire::Boolean(b) => WireValue::Boolean(b),
        Wire::Integer(n) => WireValue::Integer(
            n.as_u64().map_or(Integer::Signed(n.as_i64().unwrap_or_default()), Integer::Unsigned),
        ),
        Wire::F32(x) => WireValue::F32(x.to_bits()),
        Wire::F64(x) => WireValue::F64(x.to_bits()),
        Wire::String(s) if s.is_str() => WireValue::String(s.into_str().unwrap_or_default()),
        Wire::String(s) => WireValue::RawString(s.into_bytes()),
        Wire::Binary(bytes) => WireValue::Binary(bytes),
        Wire::Ext(tag, bytes) => WireValue::Ext(tag, bytes),
        _ => WireValue::Nil,
    }
}

/// Turns a value of the library into one of `rmpv`, variant by variant. A
/// string that is not UTF-8 becomes a byte string: `rmpv` offers no way to
/// build such a string, and writes one as a byte string.
#[verifier::external_body]
fn to_wire(value: &WireValue) -> Wire {
    match value {
        WireValue::Array(items) => Wire::Array(items.iter().map(to_wire).collect()),
        WireValue::Dict(entries) => Wire::Map(
            entries.iter().map(|(k, v)| (to_wire(k), to_wire(v))).collect(),
        ),
        other => leaf_to_wire(other),
    }
}

/// Turns a value of the library that holds no further values into one of `rmpv`.
#[verifier::external_body]
fn leaf_to_wire(value: &WireValue) -> Wire {
    match value {
        WireValue::Boolean(b) => Wire::Boolean(*b),
        WireValue::Integer(Integer::Unsigned(n)) => Wire::from(*n),
        WireValue::Integer(Integer::Signed(n)) => Wire::from(*n),
        WireValue::F32(bits) => Wire::F32(num_traits::FromBytes::from_be_bytes(&bits.to_be_bytes())),
        WireValue::F64(bits) => Wire::F64(num_traits::FromBytes::from_be_bytes(&bits.to_be_bytes())),
        WireValue::String(s) => Wire::from(s.as_str()),
        WireValue::RawString(bytes) => Wire::Binary(bytes.clone()),
        WireValue::Binary(bytes) => Wire::Binary(bytes.clone()),
        WireValue::Ext(tag, bytes) => Wire::Ext(*tag, bytes.clone()),
        _ => Wire::Nil,
    }
}

} // verus!
