//! The native value unit of a cell output.
//!
//! All arithmetic on capacities is checked: an addition that would overflow
//! `u64`, or a subtraction that would go below zero, is reported as an error
//! instead of wrapping.

use vstd::prelude::*;

verus! {

/// A non-negative 64-bit quantity of value, counted in shannons.
#[derive(Clone, Copy, PartialEq, Eq, Structural, Debug)]
pub struct Capacity {
    pub shannons: u64,
}

impl Capacity {
    /// The zero quantity.
    pub fn zero() -> (r: Capacity)
        ensures
            r.shannons == 0,
    {
        Capacity { shannons: 0 }
    }

    /// Checked addition: `None` exactly when the sum does not fit in 64 bits.
    pub fn safe_add(self, other: Capacity) -> (r: Option<Capacity>)
        ensures
            self.shannons + other.shannons <= u64::MAX ==> (r matches Some(c)
                && c.shannons == self.shannons + other.shannons),
            self.shannons + other.shannons > u64::MAX ==> r is None,
    {
        match self.shannons.checked_add(other.shannons) {
            Some(s) => Some(Capacity { shannons: s }),
            None => None,
        }
    }

    /// Checked subtraction: `None` exactly when the result would be negative.
    pub fn safe_sub(self, other: Capacity) -> (r: Option<Capacity>)
        ensures
            other.shannons <= self.shannons ==> (r matches Some(c)
                && c.shannons == self.shannons - other.shannons),
            other.shannons > self.shannons ==> r is None,
    {
        match self.shannons.checked_sub(other.shannons) {
            Some(s) => Some(Capacity { shannons: s }),
            None => None,
        }
    }
}

} // verus!
