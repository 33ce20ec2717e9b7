use vstd::prelude::*;
use crate::decimal::{dec, u64_to_string};

verus! {

/// A Discord identifier: a 64-bit unsigned integer that the gateway sends as a decimal string.
#[derive(Clone, Copy, Debug, PartialEq, Eq, Structural, Hash)]
pub struct SnowflakeID(pub u64);

impl SnowflakeID {
    /// The identifier zero, which stands for "no id" and for the direct-message pseudo-guild.
    pub fn const_zero() -> (r: Self)
        ensures
            r.0 == 0,
    {
        SnowflakeID(0)
    }

    /// Wraps a raw integer.
    pub fn from_u64(n: u64) -> (r: Self)
        ensures
            r.0 == n,
    {
        SnowflakeID(n)
    }

    /// The raw integer.
    pub fn as_u64(self) -> (r: u64)
        ensures
            r == self.0,
    {
        self.0
    }

    /// The id as it is displayed and sent: in decimal.
    pub fn to_string(&self) -> (r: String)
        ensures
            r@ == dec(self.0 as nat),
    {
        u64_to_string(self.0)
    }
}

impl Default for SnowflakeID {
    /// The id zero.
    fn default() -> (r: Self)
        ensures
            r.0 == 0,
    {
        SnowflakeID(0)
    }
}

impl From<SnowflakeID> for u64 {
    /// The raw integer of an id.
    fn from(v: SnowflakeID) -> (r: u64) {
        v.0
    }
}

impl vstd::std_specs::convert::FromSpecImpl<SnowflakeID> for u64 {
    open spec fn obeys_from_spec() -> bool {
        true
    }

    open spec fn from_spec(v: SnowflakeID) -> u64 {
        v.0
    }
}

impl PartialEq<u64> for SnowflakeID {
    /// An id equals a raw integer when its number is that integer.
    fn eq(&self, other: &u64) -> (r: bool) {
        self.0 == *other
    }
}

impl vstd::std_specs::cmp::PartialEqSpecImpl<u64> for SnowflakeID {
    open spec fn obeys_eq_spec() -> bool {
        true
    }

    open spec fn eq_spec(&self, other: &u64) -> bool {
        self.0 == *other
    }
}

/// An id and its raw integer give each other back: wrapping a number and taking the number
/// out of an id are inverse.
pub proof fn law_id_round_trip(n: u64, x: SnowflakeID)
    ensures
        SnowflakeID(n).0 == n,
        SnowflakeID(x.0) == x,
{
}

} // verus!
