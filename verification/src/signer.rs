//! Key pairs and signatures as the library holds them.

use vstd::prelude::*;
use crate::address::Address;
use solana_sdk::signer::keypair::Keypair;

verus! {

/// The signature that the ledger returns for a submitted batch.
#[derive(Clone, Copy, Debug, PartialEq, Eq)]
pub struct Signature {
    pub bytes: [u8; 64],
}

/// A key pair in the ledger's 64-byte form: the secret key in the first 32
/// bytes, the public key, which is the pair's address, in the last 32.
#[derive(Clone, Copy, PartialEq, Eq)]
pub struct MintKeypair {
    pub bytes: [u8; 64],
}

/// The public key that belongs to a 32-byte secret key: the address at which
/// the ledger accepts signatures made with that secret key.
pub uninterp spec fn public_key_of(secret: Seq<u8>) -> Seq<u8>;

/// Calls `Keypair::new`, which draws a secret key from the operating
/// system's random source and computes its public key, and `to_bytes` on
/// the pair, which gives the secret key followed by the public key. Nothing
/// is promised of the secret key; the contract says that the last 32 bytes
/// are the public key of the first 32, and names that key.
#[verifier::external_body]
fn new_keypair_bytes() -> (bytes: [u8; 64])
    ensures
        bytes@.subrange(32, 64) == public_key_of(bytes@.subrange(0, 32)),
{
    Keypair::new().to_bytes()
}

impl MintKeypair {
    /// The secret half of the pair.
    pub open spec fn secret_bytes(self) -> Seq<u8> {
        self.bytes@.subrange(0, 32)
    }

    /// The address that the pair signs for.
    pub open spec fn address_bytes(self) -> Seq<u8> {
        self.bytes@.subrange(32, 64)
    }

    /// Whether the two halves belong together: the address is the public key
    /// of the secret half, so that the pair can sign for its own address.
    pub open spec fn is_key_pair(self) -> bool {
        self.address_bytes() == public_key_of(self.secret_bytes())
    }

    /// A fresh key pair whose halves belong together. The secret half is
    /// drawn at random: two calls give pairs that nothing relates.
    pub fn generate() -> (pair: MintKeypair)
        ensures
            pair.is_key_pair(),
    {
        MintKeypair { bytes: new_keypair_bytes() }
    }

    /// The address that the pair signs for: its public half.
    pub fn address(&self) -> (address: Address)
        ensures
            address@ == self.address_bytes(),
    {
        let mut public = [0u8; 32];
        let mut i: usize = 0;
        while i < 32
            invariant
                i <= 32,
                forall|j: int| 0 <= j < i ==> public@[j] == self.bytes@[32 + j],
            decreases 32 - i,
        {
            public[i] = self.bytes[32 + i];
            i += 1;
        }
        assert(public@ =~= self.bytes@.subrange(32, 64));
        Address::new(public)
    }
}

} // verus!
