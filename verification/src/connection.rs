//! Connection identifiers.

use vstd::prelude::*;

verus! {

/// The number that `bytes` spell when read with the least significant byte first.
pub open spec fn le_value(bytes: Seq<u8>) -> nat
    decreases bytes.len(),
{
    if bytes.len() == 0 {
        0
    } else {
        bytes[0] as nat + 256 * le_value(bytes.skip(1))
    }
}

/// Identifies one client connection: a 128-bit number, of which zero is reserved.
#[derive(Clone, Copy, Debug, PartialEq, Eq, Hash, Structural)]
pub struct ConnectionId {
    id: u128,
}

impl View for ConnectionId {
    type V = nat;

    open spec fn view(&self) -> nat {
        self.to_u128() as nat
    }
}

/// Sixteen bytes from the thread-local generator of `rand` (`rand::random`).
/// Nothing is claimed of them: they are random.
#[verifier::external_body]
fn random_bytes() -> (bytes: [u8; 16]) {
    rand::random()
}

/// `spacetimedb_lib::ConnectionId::from_le_byte_array`, read back with `to_u128`:
/// the number whose little-endian representation is `bytes`.
#[verifier::external_body]
fn number_of_le_bytes(bytes: [u8; 16]) -> (number: u128)
    ensures
        number as nat == le_value(bytes@),
{
    spacetimedb_lib::ConnectionId::from_le_byte_array(bytes).to_u128()
}

impl ConnectionId {
    /// The number of this identifier.
    pub closed spec fn spec_to_u128(&self) -> u128 {
        self.id
    }

    #[verifier::when_used_as_spec(spec_to_u128)]
    pub fn to_u128(&self) -> (number: u128)
        ensures
            number == self.to_u128(),
    {
        self.id
    }

    pub fn from_u128(number: u128) -> (id: Self)
        ensures
            id.to_u128() == number,
    {
        ConnectionId { id: number }
    }

    /// The reserved identifier.
    pub fn zero() -> (id: Self)
        ensures
            id@ == 0,
    {
        ConnectionId { id: 0 }
    }

    /// The identifier whose little-endian representation is `bytes`.
    pub fn from_le_byte_array(bytes: [u8; 16]) -> (id: Self)
        ensures
            id@ == le_value(bytes@),
    {
        ConnectionId { id: number_of_le_bytes(bytes) }
    }

    pub fn is_zero(&self) -> (zero: bool)
        ensures
            zero == (self@ == 0),
    {
        self.id == 0
    }
}

/// A fresh identifier from sixteen random bytes, read little-endian.
/// It is random, zero included, so nothing is promised of it.
pub fn generate_random_connection_id() -> ConnectionId {
    ConnectionId::from_le_byte_array(random_bytes())
}

} // verus!
