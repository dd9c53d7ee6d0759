//! Ledger addresses and the fixed identifiers of the programs and system
//! variables this crate builds instructions for.

use vstd::prelude::*;
use solana_sdk::pubkey::Pubkey;

verus! {

/// A 32-byte ledger address: an account, a program or a system variable.
///
/// Its view is the sequence of its 32 bytes.
#[derive(Clone, Copy, Debug, PartialEq, Eq, Hash)]
pub struct Address {
    pub bytes: [u8; 32],
}

impl View for Address {
    type V = Seq<u8>;

    open spec fn view(&self) -> Seq<u8> {
        self.bytes@
    }
}

/// The base-58 text of an address, as the ledger's tools print it.
pub uninterp spec fn base58_text(bytes: Seq<u8>) -> Seq<char>;

/// Calls `Pubkey`'s `to_string`, which encodes the 32 bytes in base 58.
/// The contract names the text; it says nothing of how it is computed.
#[verifier::external_body]
fn pubkey_to_string(address: &Address) -> (text: String)
    ensures
        text@ == base58_text(address@),
{
    Pubkey::new_from_array(address.bytes).to_string()
}

impl Address {
    /// Wraps 32 raw bytes.
    pub fn new(bytes: [u8; 32]) -> (a: Address)
        ensures
            a.bytes == bytes,
            a@ == bytes@,
    {
        Address { bytes }
    }

    /// The raw bytes of the address.
    pub fn to_bytes(&self) -> (b: [u8; 32])
        ensures
            b == self.bytes,
            b@ == self@,
    {
        self.bytes
    }

    /// The address in base 58.
    pub fn to_base58(&self) -> (text: String)
        ensures
            text@ == base58_text(self@),
    {
        pubkey_to_string(self)
    }

    /// The bytes of the address as a vector, for use as a derivation seed.
    pub fn to_vec(&self) -> (v: Vec<u8>)
        ensures
            v@ == self@,
    {
        let mut v: Vec<u8> = Vec::new();
        let mut i: usize = 0;
        while i < 32
            invariant
                i <= 32,
                v@ == self@.subrange(0, i as int),
            decreases 32 - i,
        {
            v.push(self.bytes[i]);
            i += 1;
            assert(v@ =~= self@.subrange(0, i as int));
        }
        assert(self@.subrange(0, 32) =~= self@);
        v
    }
}

/// An address is its 32 bytes: two addresses with the same bytes are the
/// same address.
pub proof fn lemma_address_is_its_bytes(first: Address, second: Address)
    requires
        first@ == second@,
    ensures
        first == second,
{
    assert(first.bytes =~= second.bytes);
}

/// Bytes of the system program's identifier.
pub open spec fn system_program_bytes() -> Seq<u8> {
    seq![
        0u8, 0, 0, 0, 0, 0, 0, 0, 0, 0, 0, 0, 0, 0, 0, 0,
        0, 0, 0, 0, 0, 0, 0, 0, 0, 0, 0, 0, 0, 0, 0, 0,
    ]
}

/// Bytes of the token program's identifier.
pub open spec fn token_program_bytes() -> Seq<u8> {
    seq![
        6u8, 221, 246, 225, 215, 101, 161, 147, 217, 203, 225, 70, 206, 235, 121, 172,
        28, 180, 133, 237, 95, 91, 55, 145, 58, 140, 245, 133, 126, 255, 0, 169,
    ]
}

/// Bytes of the associated-token-account program's identifier.
pub open spec fn associated_token_program_bytes() -> Seq<u8> {
    seq![
        140u8, 151, 37, 143, 78, 36, 137, 241, 187, 61, 16, 41, 20, 142, 13, 131,
        11, 90, 19, 153, 218, 255, 16, 132, 4, 142, 123, 216, 219, 233, 248, 89,
    ]
}

/// Bytes of the token-metadata program's identifier.
pub open spec fn token_metadata_program_bytes() -> Seq<u8> {
    seq![
        11u8, 112, 101, 177, 227, 209, 124, 69, 56, 157, 82, 127, 107, 4, 195, 205,
        88, 184, 108, 115, 26, 160, 253, 181, 73, 182, 209, 188, 3, 248, 41, 70,
    ]
}

/// Bytes of the compute-budget program's identifier.
pub open spec fn compute_budget_program_bytes() -> Seq<u8> {
    seq![
        3u8, 6, 70, 111, 229, 33, 23, 50, 255, 236, 173, 186, 114, 195, 155, 231,
        188, 140, 229, 187, 197, 247, 18, 107, 44, 67, 155, 58, 64, 0, 0, 0,
    ]
}

/// Bytes of the rent system variable's address.
pub open spec fn rent_sysvar_bytes() -> Seq<u8> {
    seq![
        6u8, 167, 213, 23, 25, 44, 92, 81, 33, 140, 201, 76, 61, 74, 241, 127,
        88, 218, 238, 8, 155, 161, 253, 68, 227, 219, 217, 138, 0, 0, 0, 0,
    ]
}

/// Bytes of the candy-machine program's identifier.
pub open spec fn candy_machine_program_bytes() -> Seq<u8> {
    seq![
        175u8, 33, 127, 194, 214, 71, 225, 38, 220, 199, 29, 50, 234, 196, 84, 239,
        202, 73, 240, 29, 87, 162, 79, 17, 150, 153, 82, 222, 172, 228, 173, 146,
    ]
}

/// The system program, `11111111111111111111111111111111`.
pub fn system_program_id() -> (a: Address)
    ensures
        a@ == system_program_bytes(),
{
    let a = Address { bytes: [0u8; 32] };
    assert(a@ =~= system_program_bytes());
    a
}

/// The token program, `TokenkegQfeZyiNwAJbNbGKPFXCWuBvf9Ss623VQ5DA`.
pub fn token_program_id() -> (a: Address)
    ensures
        a@ == token_program_bytes(),
{
    let a = Address {
        bytes: [
            6u8, 221, 246, 225, 215, 101, 161, 147, 217, 203, 225, 70, 206, 235, 121, 172,
            28, 180, 133, 237, 95, 91, 55, 145, 58, 140, 245, 133, 126, 255, 0, 169,
        ],
    };
    assert(a@ =~= token_program_bytes());
    a
}

/// The associated-token-account program,
/// `ATokenGPvbdGVxr1b2hvZbsiqW5xWH25efTNsLJA8knL`.
pub fn associated_token_program_id() -> (a: Address)
    ensures
        a@ == associated_token_program_bytes(),
{
    let a = Address {
        bytes: [
            140u8, 151, 37, 143, 78, 36, 137, 241, 187, 61, 16, 41, 20, 142, 13, 131,
            11, 90, 19, 153, 218, 255, 16, 132, 4, 142, 123, 216, 219, 233, 248, 89,
        ],
    };
    assert(a@ =~= associated_token_program_bytes());
    a
}

/// The token-metadata program, `metaqbxxUerdq28cj1RbAWkYQm3ybzjb6a8bt518x1s`.
pub fn token_metadata_program_id() -> (a: Address)
    ensures
        a@ == token_metadata_program_bytes(),
{
    let a = Address {
        bytes: [
            11u8, 112, 101, 177, 227, 209, 124, 69, 56, 157, 82, 127, 107, 4, 195, 205,
            88, 184, 108, 115, 26, 160, 253, 181, 73, 182, 209, 188, 3, 248, 41, 70,
        ],
    };
    assert(a@ =~= token_metadata_program_bytes());
    a
}

/// The compute-budget program, `ComputeBudget111111111111111111111111111111`.
pub fn compute_budget_program_id() -> (a: Address)
    ensures
        a@ == compute_budget_program_bytes(),
{
    let a = Address {
        bytes: [
            3u8, 6, 70, 111, 229, 33, 23, 50, 255, 236, 173, 186, 114, 195, 155, 231,
            188, 140, 229, 187, 197, 247, 18, 107, 44, 67, 155, 58, 64, 0, 0, 0,
        ],
    };
    assert(a@ =~= compute_budget_program_bytes());
    a
}

/// The rent system variable, `SysvarRent111111111111111111111111111111111`.
pub fn rent_sysvar_id() -> (a: Address)
    ensures
        a@ == rent_sysvar_bytes(),
{
    let a = Address {
        bytes: [
            6u8, 167, 213, 23, 25, 44, 92, 81, 33, 140, 201, 76, 61, 74, 241, 127,
            88, 218, 238, 8, 155, 161, 253, 68, 227, 219, 217, 138, 0, 0, 0, 0,
        ],
    };
    assert(a@ =~= rent_sysvar_bytes());
    a
}

/// The candy-machine program, `CndyV3LdqHUfDLmE5naZjVN8rBZz4tqhdefbAnjHG3JR`.
pub fn candy_machine_program_id() -> (a: Address)
    ensures
        a@ == candy_machine_program_bytes(),
{
    let a = Address {
        bytes: [
            175u8, 33, 127, 194, 214, 71, 225, 38, 220, 199, 29, 50, 234, 196, 84, 239,
            202, 73, 240, 29, 87, 162, 79, 17, 150, 153, 82, 222, 172, 228, 173, 146,
        ],
    };
    assert(a@ =~= candy_machine_program_bytes());
    a
}

} // verus!
