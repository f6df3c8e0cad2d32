//! The part of an expense that one cost bearer carries.

use vstd::prelude::*;
use crate::identifier::EntityId;

verus! {

/// The bit pattern of positive zero.
pub const POSITIVE_ZERO_BITS: u64 = 0x0000_0000_0000_0000;

/// The bit pattern of negative zero.
pub const NEGATIVE_ZERO_BITS: u64 = 0x8000_0000_0000_0000;

/// A signed amount: an IEEE 754 binary64 number, held by its bit pattern.
///
/// The sign gives the direction of the split, a credit or a debit. Two
/// amounts are equal when their bit patterns are.
#[derive(Clone, Copy, Debug, PartialEq, Eq, Structural)]
pub struct Amount {
    pub bits: u64,
}

impl Amount {
    /// Whether the amount is numerically zero, of either sign.
    pub open spec fn is_zero_spec(&self) -> bool {
        self.bits == POSITIVE_ZERO_BITS || self.bits == NEGATIVE_ZERO_BITS
    }

    /// The amount with the given bit pattern.
    pub fn from_bits(bits: u64) -> (amount: Self)
        ensures
            amount.bits == bits,
    {
        Amount { bits }
    }

    /// The bit pattern of the amount.
    pub fn to_bits(&self) -> (bits: u64)
        ensures
            bits == self.bits,
    {
        self.bits
    }

    /// Whether the amount is numerically zero, of either sign.
    #[verifier::when_used_as_spec(is_zero_spec)]
    pub fn is_zero(&self) -> (zero: bool)
        ensures
            zero == self.is_zero_spec(),
    {
        self.bits == POSITIVE_ZERO_BITS || self.bits == NEGATIVE_ZERO_BITS
    }
}

/// One share of an expense: who bears it, and how much.
#[derive(Clone, Copy, Debug, PartialEq, Eq, Structural)]
pub struct CostShare {
    pub cost_bearer_id: EntityId,
    pub amount: Amount,
}

impl CostShare {
    /// A share is malformed when its amount is zero or it names no bearer.
    pub open spec fn is_malformed_spec(&self) -> bool {
        self.amount.is_zero_spec() || self.cost_bearer_id.is_nil_spec()
    }

    /// Whether the share's amount is zero or it names no bearer.
    #[verifier::when_used_as_spec(is_malformed_spec)]
    pub fn is_malformed(&self) -> (malformed: bool)
        ensures
            malformed == self.is_malformed_spec(),
    {
        self.amount.is_zero() || self.cost_bearer_id.is_nil()
    }
}

} // verus!
