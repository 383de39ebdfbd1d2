//! The integers that a value can hold.

use vstd::prelude::*;
use vstd::std_specs::cmp::PartialEqSpecImpl;

verus! {

/// A MessagePack integer: any whole number from `-(2^63)` up to `2^64 - 1`.
#[derive(Clone, Copy, Debug)]
pub enum Integer {
    /// A number held as an unsigned 64-bit word.
    Unsigned(u64),
    /// A number held as a signed 64-bit word.
    Signed(i64),
}

impl View for Integer {
    type V = int;

    /// The number that the integer stands for.
    open spec fn view(&self) -> int {
        match self {
            Integer::Unsigned(n) => *n as int,
            Integer::Signed(n) => *n as int,
        }
    }
}

impl Integer {
    /// The integer equal to `n`.
    pub fn from_u64(n: u64) -> (out: Integer)
        ensures
            out@ == n,
    {
        Integer::Unsigned(n)
    }

    /// The integer equal to `n`.
    pub fn from_i64(n: i64) -> (out: Integer)
        ensures
            out@ == n,
    {
        Integer::Signed(n)
    }

    /// The number as a `u64`, when it is not negative.
    pub fn as_u64(&self) -> (out: Option<u64>)
        ensures
            out == (if 0 <= self@ <= u64::MAX {
                Some(self@ as u64)
            } else {
                None::<u64>
            }),
    {
        match self {
            Integer::Unsigned(n) => Some(*n),
            Integer::Signed(n) => if *n >= 0 {
                Some(*n as u64)
            } else {
                None
            },
        }
    }

    /// The number as an `i64`, when it is at most `i64::MAX`.
    pub fn as_i64(&self) -> (out: Option<i64>)
        ensures
            out == (if i64::MIN <= self@ <= i64::MAX {
                Some(self@ as i64)
            } else {
                None::<i64>
            }),
    {
        match self {
            Integer::Unsigned(n) => if *n <= 0x7fff_ffff_ffff_ffff {
                Some(*n as i64)
            } else {
                None
            },
            Integer::Signed(n) => Some(*n),
        }
    }
}

impl PartialEq for Integer {
    /// Two integers are equal when they stand for the same number, however
    /// each is held.
    fn eq(&self, other: &Integer) -> (out: bool) {
        match (self.as_u64(), other.as_u64()) {
            (Some(a), Some(b)) => a == b,
            (None, None) => match (self.as_i64(), other.as_i64()) {
                (Some(a), Some(b)) => a == b,
                _ => false,
            },
            _ => false,
        }
    }
}

impl PartialEqSpecImpl for Integer {
    open spec fn obeys_eq_spec() -> bool {
        true
    }

    open spec fn eq_spec(&self, other: &Integer) -> bool {
        self@ == other@
    }
}

impl Eq for Integer {

}

} // verus!
