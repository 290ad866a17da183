//! The node's identity material, reduced to the plain values the coordination
//! core reads.
//!
//! Key generation, signing and the cryptographic derivation of a peer
//! identity are outside this library's scope; a keypair is carried here only
//! as the seed value from which the runtime derives the real key material,
//! and the public half is identified by the same value.

use vstd::prelude::*;

verus! {

/// An ed25519 keypair, represented by its seed.
#[derive(Debug, Clone, Copy, PartialEq, Eq, Structural)]
pub struct Keypair {
    pub seed: u64,
}

/// The public half of a node's identity keypair.
#[derive(Debug, Clone, Copy, PartialEq, Eq, Structural)]
pub enum PublicKey {
    Ed25519(u64),
}

impl Keypair {
    /// The default identity.  Fresh randomness is outside this library's
    /// scope: an embedder that wants a distinct identity passes its own seed.
    pub fn generate() -> (r: Keypair)
        ensures
            r.seed == 0,
    {
        Keypair { seed: 0 }
    }

    /// A keypair from an explicit seed.
    pub fn from_seed(seed: u64) -> (r: Keypair)
        ensures
            r.seed == seed,
    {
        Keypair { seed }
    }

    /// The public half of this keypair.
    pub fn public(&self) -> (r: u64)
        ensures
            r == self.seed,
    {
        self.seed
    }
}

/// Stable identity of a remote node, derived from its public key and
/// independent of transport or address.
#[derive(Debug, Clone, Copy, PartialEq, Eq, Structural)]
pub struct PeerId {
    pub id: u64,
}

impl PeerId {
    /// The identity a public key stands for.
    pub fn from_public_key(key: &PublicKey) -> (r: PeerId)
        ensures
            r == PeerId::of_public_key(*key),
    {
        match key {
            PublicKey::Ed25519(value) => PeerId { id: *value },
        }
    }

    /// The identity derived from a public key.
    pub open spec fn of_public_key(key: PublicKey) -> PeerId {
        match key {
            PublicKey::Ed25519(value) => PeerId { id: value },
        }
    }
}

} // verus!
