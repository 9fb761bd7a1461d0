//! Opaque 128-bit identifiers for entities, nodes, shards and clusters.
//!
//! Each identifier holds the raw bits of a version-7 UUID: generated
//! without coordination, unique in expectation, and embedding creation
//! time so that freshly generated identifiers are ordered by creation.
//! Equality and hashing are by raw value.

use vstd::prelude::*;

verus! {

/// The `uuid::Uuid` type, opaque to the verifier; identifiers carry its
/// raw 128 bits and convert at this boundary.
#[verifier::external_type_specification]
#[verifier::external_body]
pub struct ExUuid(uuid::Uuid);

/// The raw bits of a freshly generated time-ordered UUID.
///
/// Relies on `uuid::Uuid::now_v7` (a version-7 UUID from the current
/// timestamp and random bits, read out with `Uuid::as_u128`). The value
/// depends on the clock and a random source, so nothing is promised of it.
#[verifier::external_body]
fn fresh_uuid_bits() -> u128 {
    uuid::Uuid::now_v7().as_u128()
}

/// The raw 128 bits of a UUID, a pure function of the value.
pub uninterp spec fn bits_of_uuid_spec(u: uuid::Uuid) -> u128;

/// Relies on `uuid::Uuid::as_u128`: the UUID read as its raw 128 bits.
#[verifier::external_body]
fn uuid_bits(u: &uuid::Uuid) -> (r: u128)
    ensures
        r == bits_of_uuid_spec(*u),
{
    u.as_u128()
}

/// Relies on `uuid::Uuid::from_u128`: the UUID whose raw bits are the
/// argument; `as_u128` reads exactly those bits back, the two being
/// inverse byte reorderings.
#[verifier::external_body]
fn uuid_from_bits(bits: u128) -> (r: uuid::Uuid)
    ensures
        bits_of_uuid_spec(r) == bits,
{
    uuid::Uuid::from_u128(bits)
}

/// The hyphenated textual form of the UUID with the given raw bits.
pub uninterp spec fn uuid_text_spec(bits: u128) -> Seq<char>;

/// Relies on `uuid::Uuid`'s display form: the hyphenated textual UUID,
/// which is a function of the 128 raw bits alone and is 36 characters
/// long.
#[verifier::external_body]
fn uuid_text(bits: u128) -> (r: String)
    ensures
        r@ == uuid_text_spec(bits),
        r@.len() == 36,
{
    format!("{}", uuid::Uuid::from_u128(bits))
}

/// Unique identifier for an entity in the memory substrate.
#[derive(Clone, Copy, PartialEq, Eq, Structural, Hash, Debug)]
pub struct EntityId {
    /// The identifier's raw 128 bits.
    pub bits: u128,
}

impl EntityId {
    /// Generate a fresh identifier with temporal ordering.
    pub fn new() -> Self {
        EntityId { bits: fresh_uuid_bits() }
    }

    /// The identifier carrying the given UUID's bits; converting back
    /// with `as_uuid` yields a UUID with those same bits.
    pub fn from_uuid(uuid_value: uuid::Uuid) -> (r: Self)
        ensures
            r.bits == bits_of_uuid_spec(uuid_value),
    {
        EntityId { bits: uuid_bits(&uuid_value) }
    }

    /// The identifier as a UUID, carrying exactly the identifier's bits.
    pub fn as_uuid(&self) -> (r: uuid::Uuid)
        ensures
            bits_of_uuid_spec(r) == self.bits,
    {
        uuid_from_bits(self.bits)
    }

    /// The hyphenated textual form of the identifier.
    pub fn display(&self) -> (r: String)
        ensures
            r@ == uuid_text_spec(self.bits),
            r@.len() == 36,
    {
        uuid_text(self.bits)
    }
}

impl Default for EntityId {
    /// A freshly generated identifier.
    fn default() -> Self {
        EntityId::new()
    }
}

/// Unique identifier for a node in the cluster.
#[derive(Clone, Copy, PartialEq, Eq, Structural, Hash, Debug)]
pub struct NodeId {
    /// The identifier's raw 128 bits.
    pub bits: u128,
}

impl NodeId {
    /// Generate a fresh identifier with temporal ordering.
    pub fn new() -> Self {
        NodeId { bits: fresh_uuid_bits() }
    }

    /// The identifier carrying the given UUID's bits; converting back
    /// with `as_uuid` yields a UUID with those same bits.
    pub fn from_uuid(uuid_value: uuid::Uuid) -> (r: Self)
        ensures
            r.bits == bits_of_uuid_spec(uuid_value),
    {
        NodeId { bits: uuid_bits(&uuid_value) }
    }

    /// The identifier as a UUID, carrying exactly the identifier's bits.
    pub fn as_uuid(&self) -> (r: uuid::Uuid)
        ensures
            bits_of_uuid_spec(r) == self.bits,
    {
        uuid_from_bits(self.bits)
    }

    /// The hyphenated textual form of the identifier.
    pub fn display(&self) -> (r: String)
        ensures
            r@ == uuid_text_spec(self.bits),
            r@.len() == 36,
    {
        uuid_text(self.bits)
    }
}

impl Default for NodeId {
    /// A freshly generated identifier.
    fn default() -> Self {
        NodeId::new()
    }
}

/// Unique identifier for a logical partition of the memory space.
#[derive(Clone, Copy, PartialEq, Eq, Structural, Hash, Debug)]
pub struct ShardId {
    /// The identifier's raw 128 bits.
    pub bits: u128,
}

impl ShardId {
    /// Generate a fresh identifier with temporal ordering.
    pub fn new() -> Self {
        ShardId { bits: fresh_uuid_bits() }
    }

    /// The identifier carrying the given UUID's bits; converting back
    /// with `as_uuid` yields a UUID with those same bits.
    pub fn from_uuid(uuid_value: uuid::Uuid) -> (r: Self)
        ensures
            r.bits == bits_of_uuid_spec(uuid_value),
    {
        ShardId { bits: uuid_bits(&uuid_value) }
    }

    /// The identifier as a UUID, carrying exactly the identifier's bits.
    pub fn as_uuid(&self) -> (r: uuid::Uuid)
        ensures
            bits_of_uuid_spec(r) == self.bits,
    {
        uuid_from_bits(self.bits)
    }

    /// The hyphenated textual form of the identifier.
    pub fn display(&self) -> (r: String)
        ensures
            r@ == uuid_text_spec(self.bits),
            r@.len() == 36,
    {
        uuid_text(self.bits)
    }
}

impl Default for ShardId {
    /// A freshly generated identifier.
    fn default() -> Self {
        ShardId::new()
    }
}

/// Unique identifier for a group of semantically similar entities.
#[derive(Clone, Copy, PartialEq, Eq, Structural, Hash, Debug)]
pub struct ClusterId {
    /// The identifier's raw 128 bits.
    pub bits: u128,
}

impl ClusterId {
    /// Generate a fresh identifier with temporal ordering.
    pub fn new() -> Self {
        ClusterId { bits: fresh_uuid_bits() }
    }

    /// The identifier carrying the given UUID's bits; converting back
    /// with `as_uuid` yields a UUID with those same bits.
    pub fn from_uuid(uuid_value: uuid::Uuid) -> (r: Self)
        ensures
            r.bits == bits_of_uuid_spec(uuid_value),
    {
        ClusterId { bits: uuid_bits(&uuid_value) }
    }

    /// The identifier as a UUID, carrying exactly the identifier's bits.
    pub fn as_uuid(&self) -> (r: uuid::Uuid)
        ensures
            bits_of_uuid_spec(r) == self.bits,
    {
        uuid_from_bits(self.bits)
    }

    /// The hyphenated textual form of the identifier.
    pub fn display(&self) -> (r: String)
        ensures
            r@ == uuid_text_spec(self.bits),
            r@.len() == 36,
    {
        uuid_text(self.bits)
    }
}

impl Default for ClusterId {
    /// A freshly generated identifier.
    fn default() -> Self {
        ClusterId::new()
    }
}

} // verus!
