//! Opaque 128-bit identifiers of entities.

use vstd::prelude::*;

verus! {

/// The bits of an identifier that carry its version and its variant.
pub const VERSION_VARIANT_MASK: u128 = 0x0000_0000_0000_F000_C000_0000_0000_0000;

/// Version 4 (random) under the RFC 9562 variant, in the position of
/// [`VERSION_VARIANT_MASK`].
pub const RANDOM_VERSION_VARIANT: u128 = 0x0000_0000_0000_4000_8000_0000_0000_0000;

/// A 128-bit identifier, held as the big-endian number of its sixteen bytes.
///
/// The nil identifier is the number zero; it stands for "no entity".
#[derive(Clone, Copy, Debug, PartialEq, Eq, Structural, Hash)]
pub struct EntityId {
    pub value: u128,
}

impl EntityId {
    /// Whether the identifier is the nil identifier.
    pub open spec fn is_nil_spec(&self) -> bool {
        self.value == 0
    }

    /// Whether the identifier has the layout of a randomly drawn one.
    pub open spec fn is_random_spec(&self) -> bool {
        self.value & VERSION_VARIANT_MASK == RANDOM_VERSION_VARIANT
    }

    /// The nil identifier.
    pub fn nil() -> (id: Self)
        ensures
            id.value == 0,
            id.is_nil_spec(),
    {
        EntityId { value: 0 }
    }

    /// The identifier with the given number.
    pub fn from_u128(value: u128) -> (id: Self)
        ensures
            id.value == value,
    {
        EntityId { value }
    }

    /// The number of the identifier.
    pub fn as_u128(&self) -> (value: u128)
        ensures
            value == self.value,
    {
        self.value
    }

    #[verifier::when_used_as_spec(is_nil_spec)]
    pub fn is_nil(&self) -> (nil: bool)
        ensures
            nil == self.is_nil_spec(),
    {
        self.value == 0
    }

    /// Whether the identifier has the layout of a randomly drawn one.
    #[verifier::when_used_as_spec(is_random_spec)]
    pub fn is_random(&self) -> (random: bool)
        ensures
            random == self.is_random_spec(),
    {
        self.value & VERSION_VARIANT_MASK == RANDOM_VERSION_VARIANT
    }

    /// Draws a fresh identifier. It is never nil.
    pub fn generate() -> (id: Self)
        ensures
            id.is_random_spec(),
            !id.is_nil_spec(),
    {
        let value = random_identifier_bits();
        proof {
            lemma_random_is_not_nil(value);
        }
        EntityId { value }
    }
}

/// An identifier with the random layout is not nil.
pub proof fn lemma_random_is_not_nil(value: u128)
    requires
        value & VERSION_VARIANT_MASK == RANDOM_VERSION_VARIANT,
    ensures
        value != 0,
{
    assert(value & 0x0000_0000_0000_F000_C000_0000_0000_0000
        == 0x0000_0000_0000_4000_8000_0000_0000_0000 ==> value != 0) by (bit_vector);
}

/// `Uuid::new_v4` of the uuid crate, read through `Uuid::as_u128`: 122 random
/// bits, with the version field set to 4 and the variant field to binary 10.
/// Which bits are drawn is not stated, and the uuid crate does not return at
/// all where the system hands out no random bytes. Believed, not proved.
#[verifier::external_body]
fn random_identifier_bits() -> (bits: u128)
    ensures
        bits & VERSION_VARIANT_MASK == RANDOM_VERSION_VARIANT,
{
    uuid::Uuid::new_v4().as_u128()
}

} // verus!
