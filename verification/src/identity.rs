//! Account identities: 32-byte public keys of the host chain, held as four
//! little-endian 64-bit words so that contracts can speak of them as plain
//! values.

use vstd::prelude::*;

verus! {

/// First little-endian word of the fixed admin identity.
pub const ADMIN_W0: u64 = 0xf55986af3a0fbed6;
/// Second little-endian word of the fixed admin identity.
pub const ADMIN_W1: u64 = 0xff294b425fe7ef8e;
/// Third little-endian word of the fixed admin identity.
pub const ADMIN_W2: u64 = 0x9c7167b2be4907aa;
/// Fourth little-endian word of the fixed admin identity.
pub const ADMIN_W3: u64 = 0x2c68d437ec25ac5a;

/// A 32-byte account identity (a public key on the host chain), split into
/// four 64-bit words, little-endian, in byte order.
#[derive(Clone, Copy, PartialEq, Eq, Structural, Debug, Hash)]
pub struct Identity {
    pub w0: u64,
    pub w1: u64,
    pub w2: u64,
    pub w3: u64,
}

impl Identity {
    /// The null identity: all 32 bytes zero. A record whose owner equals it
    /// is unclaimed; no wallet ever signs with it.
    pub open spec fn is_unset(self) -> bool {
        self.w0 == 0 && self.w1 == 0 && self.w2 == 0 && self.w3 == 0
    }

    /// The null identity as a value.
    pub fn unset() -> (r: Identity)
        ensures
            r.is_unset(),
    {
        Identity { w0: 0, w1: 0, w2: 0, w3: 0 }
    }

    /// Builds an identity from its four little-endian words.
    pub fn from_words(w0: u64, w1: u64, w2: u64, w3: u64) -> (r: Identity)
        ensures
            r == (Identity { w0, w1, w2, w3 }),
    {
        Identity { w0, w1, w2, w3 }
    }

    /// Tells whether this identity is the null identity.
    pub fn is_null(&self) -> (r: bool)
        ensures
            r == self.is_unset(),
    {
        self.w0 == 0 && self.w1 == 0 && self.w2 == 0 && self.w3 == 0
    }
}

/// The one identity allowed to initialize the board.
pub open spec fn admin_spec() -> Identity {
    Identity { w0: ADMIN_W0, w1: ADMIN_W1, w2: ADMIN_W2, w3: ADMIN_W3 }
}

/// The fixed admin identity as a value.
pub fn admin_identity() -> (r: Identity)
    ensures
        r == admin_spec(),
{
    Identity { w0: ADMIN_W0, w1: ADMIN_W1, w2: ADMIN_W2, w3: ADMIN_W3 }
}

} // verus!
