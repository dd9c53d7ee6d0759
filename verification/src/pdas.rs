//! Program-derived addresses: the accounts that belong to a mint or to a
//! candy machine are never stored, they are recomputed from seeds.

use vstd::prelude::*;
use vstd::bytes::spec_u64_from_le_bytes;
use vstd::string::*;
use crate::error::{AccountKind, Error, ErrorView};
use crate::address::{
    associated_token_program_bytes, associated_token_program_id, candy_machine_program_bytes,
    candy_machine_program_id, lemma_address_is_its_bytes, token_metadata_program_bytes,
    token_metadata_program_id, token_program_bytes, token_program_id, Address,
};
use mpl_token_metadata::accounts::{MasterEdition, Metadata};
use solana_sdk::pubkey::Pubkey;

verus! {

/// The address and bump seed that the ledger derives for a program from a
/// list of seeds, or `None` where no bump seed yields an address.
pub uninterp spec fn program_address(seeds: Seq<Seq<u8>>, program_id: Seq<u8>) -> Option<
    (Seq<u8>, u8),
>;

/// Calls `Pubkey::try_find_program_address`: the search for the highest bump
/// seed whose hash with the seeds and the program id lies off the curve.
/// The contract names the outcome, which depends on the arguments alone.
#[verifier::external_body]
fn try_find_program_address(seeds: &Vec<Vec<u8>>, program_id: &Address) -> (res: Option<
    (Address, u8),
>)
    ensures
        res matches Some((address, bump)) ==> program_address(seeds.deep_view(), program_id@)
            == Some((address@, bump)),
        res is None ==> program_address(seeds.deep_view(), program_id@) is None,
{
    let parts: Vec<&[u8]> = seeds.iter().map(|s| s.as_slice()).collect();
    Pubkey::try_find_program_address(&parts, &Pubkey::new_from_array(program_id.bytes))
        .map(|(address, bump)| (Address::new(address.to_bytes()), bump))
}

/// Calls `Pubkey::find_program_address`, which returns what
/// `try_find_program_address` finds and panics where it finds nothing; the
/// precondition leaves those seeds out.
#[verifier::external_body]
fn find_program_address(seeds: &Vec<Vec<u8>>, program_id: &Address) -> (res: (Address, u8))
    requires
        program_address(seeds.deep_view(), program_id@) is Some,
    ensures
        program_address(seeds.deep_view(), program_id@) == Some((res.0@, res.1)),
{
    let parts: Vec<&[u8]> = seeds.iter().map(|s| s.as_slice()).collect();
    let (address, bump) =
        Pubkey::find_program_address(&parts, &Pubkey::new_from_array(program_id.bytes));
    (Address::new(address.to_bytes()), bump)
}

/// Calls `Metadata::find_pda`, which derives against the token-metadata
/// program from the seeds `"metadata"`, the program's id and the mint, and
/// panics where no address exists.
#[verifier::external_body]
fn metadata_find_pda(mint: &Address) -> (res: (Address, u8))
    requires
        metadata_address(mint@) is Some,
    ensures
        metadata_address(mint@) == Some((res.0@, res.1)),
{
    let (address, bump) = Metadata::find_pda(&Pubkey::new_from_array(mint.bytes));
    (Address::new(address.to_bytes()), bump)
}

/// Calls `MasterEdition::find_pda`, which derives against the token-metadata
/// program from the seeds `"metadata"`, the program's id, the mint and
/// `"edition"`, and panics where no address exists.
#[verifier::external_body]
fn master_edition_find_pda(mint: &Address) -> (res: (Address, u8))
    requires
        master_edition_address(mint@) is Some,
    ensures
        master_edition_address(mint@) == Some((res.0@, res.1)),
{
    let (address, bump) = MasterEdition::find_pda(&Pubkey::new_from_array(mint.bytes));
    (Address::new(address.to_bytes()), bump)
}

/// Calls `spl_associated_token_account::get_associated_token_address`, which
/// derives against the associated-token-account program from the wallet, the
/// token program's id and the mint, and panics where no address exists.
#[verifier::external_body]
fn associated_token_address(wallet: &Address, mint: &Address) -> (res: Address)
    requires
        holding_address(wallet@, mint@) is Some,
    ensures
        res@ == holding_address(wallet@, mint@).unwrap().0,
{
    Address::new(
        spl_associated_token_account::get_associated_token_address(
            &Pubkey::new_from_array(wallet.bytes),
            &Pubkey::new_from_array(mint.bytes),
        ).to_bytes(),
    )
}

/// Seeds of a mint's metadata account.
pub open spec fn metadata_seeds(mint: Seq<u8>) -> Seq<Seq<u8>> {
    seq!["metadata".spec_bytes(), token_metadata_program_bytes(), mint]
}

/// Seeds of a mint's master-edition account.
pub open spec fn master_edition_seeds(mint: Seq<u8>) -> Seq<Seq<u8>> {
    seq!["metadata".spec_bytes(), token_metadata_program_bytes(), mint, "edition".spec_bytes()]
}

/// Seeds of a candy machine's creator address.
pub open spec fn candy_machine_creator_seeds(candy_machine_id: Seq<u8>) -> Seq<Seq<u8>> {
    seq!["candy_machine".spec_bytes(), candy_machine_id]
}

/// Seeds of a candy machine's collection address.
pub open spec fn collection_seeds(candy_machine_id: Seq<u8>) -> Seq<Seq<u8>> {
    seq!["collection".spec_bytes(), candy_machine_id]
}

/// Seeds of the holding account bound to a wallet and a mint.
pub open spec fn holding_seeds(wallet: Seq<u8>, mint: Seq<u8>) -> Seq<Seq<u8>> {
    seq![wallet, token_program_bytes(), mint]
}

/// The metadata account of a mint, with its bump seed.
pub open spec fn metadata_address(mint: Seq<u8>) -> Option<(Seq<u8>, u8)> {
    program_address(metadata_seeds(mint), token_metadata_program_bytes())
}

/// The master-edition account of a mint, with its bump seed.
pub open spec fn master_edition_address(mint: Seq<u8>) -> Option<(Seq<u8>, u8)> {
    program_address(master_edition_seeds(mint), token_metadata_program_bytes())
}

/// The creator address of a candy machine, with its bump seed.
pub open spec fn candy_machine_creator_address(candy_machine_id: Seq<u8>) -> Option<
    (Seq<u8>, u8),
> {
    program_address(candy_machine_creator_seeds(candy_machine_id), candy_machine_program_bytes())
}

/// The collection address of a candy machine, with its bump seed.
pub open spec fn collection_address(candy_machine_id: Seq<u8>) -> Option<(Seq<u8>, u8)> {
    program_address(collection_seeds(candy_machine_id), candy_machine_program_bytes())
}

/// The holding account bound to a wallet and a mint, with its bump seed.
pub open spec fn holding_address(wallet: Seq<u8>, mint: Seq<u8>) -> Option<(Seq<u8>, u8)> {
    program_address(holding_seeds(wallet, mint), associated_token_program_bytes())
}

/// What an address is derived from: each kind fixes its seed prefix and the
/// program it is derived against, so that neither can be mistyped at a call.
#[derive(Clone, Copy, Debug)]
pub enum Seeds {
    /// The metadata account of a mint.
    Metadata { mint: Address },
    /// The master-edition account of a mint.
    MasterEdition { mint: Address },
    /// The creator address of a candy machine.
    CandyMachineCreator { candy_machine: Address },
    /// The collection address of a candy machine.
    Collection { candy_machine: Address },
    /// The holding account bound to a wallet and a mint.
    Holding { wallet: Address, mint: Address },
}

impl Seeds {
    /// The program that the address is derived against.
    pub open spec fn program(self) -> Seq<u8> {
        match self {
            Seeds::Metadata { .. } => token_metadata_program_bytes(),
            Seeds::MasterEdition { .. } => token_metadata_program_bytes(),
            Seeds::CandyMachineCreator { .. } => candy_machine_program_bytes(),
            Seeds::Collection { .. } => candy_machine_program_bytes(),
            Seeds::Holding { .. } => associated_token_program_bytes(),
        }
    }

    /// The seed list, in the order the owning program hashes it.
    pub open spec fn list(self) -> Seq<Seq<u8>> {
        match self {
            Seeds::Metadata { mint } => metadata_seeds(mint@),
            Seeds::MasterEdition { mint } => master_edition_seeds(mint@),
            Seeds::CandyMachineCreator { candy_machine } => candy_machine_creator_seeds(
                candy_machine@,
            ),
            Seeds::Collection { candy_machine } => collection_seeds(candy_machine@),
            Seeds::Holding { wallet, mint } => holding_seeds(wallet@, mint@),
        }
    }

    /// The derived address and its bump seed, where one exists.
    pub open spec fn address(self) -> Option<(Seq<u8>, u8)> {
        program_address(self.list(), self.program())
    }

    /// The program that the address is derived against.
    pub fn owner(&self) -> (program: Address)
        ensures
            program@ == self.program(),
    {
        match self {
            Seeds::Metadata { .. } => token_metadata_program_id(),
            Seeds::MasterEdition { .. } => token_metadata_program_id(),
            Seeds::CandyMachineCreator { .. } => candy_machine_program_id(),
            Seeds::Collection { .. } => candy_machine_program_id(),
            Seeds::Holding { .. } => associated_token_program_id(),
        }
    }

    /// The seed list as bytes.
    pub fn to_list(&self) -> (seeds: Vec<Vec<u8>>)
        ensures
            seeds.deep_view() == self.list(),
    {
        let mut seeds: Vec<Vec<u8>> = Vec::new();
        match self {
            Seeds::Metadata { mint } => {
                seeds.push("metadata".as_bytes_vec());
                seeds.push(token_metadata_program_id().to_vec());
                seeds.push(mint.to_vec());
            },
            Seeds::MasterEdition { mint } => {
                seeds.push("metadata".as_bytes_vec());
                seeds.push(token_metadata_program_id().to_vec());
                seeds.push(mint.to_vec());
                seeds.push("edition".as_bytes_vec());
            },
            Seeds::CandyMachineCreator { candy_machine } => {
                seeds.push("candy_machine".as_bytes_vec());
                seeds.push(candy_machine.to_vec());
            },
            Seeds::Collection { candy_machine } => {
                seeds.push("collection".as_bytes_vec());
                seeds.push(candy_machine.to_vec());
            },
            Seeds::Holding { wallet, mint } => {
                seeds.push(wallet.to_vec());
                seeds.push(token_program_id().to_vec());
                seeds.push(mint.to_vec());
            },
        }
        assert(seeds.deep_view() =~~= self.list());
        seeds
    }

    /// Derives the address and its bump seed. `None` where no bump seed
    /// yields an address for these seeds.
    pub fn derive(&self) -> (res: Option<(Address, u8)>)
        ensures
            res matches Some((address, bump)) ==> self.address() == Some((address@, bump)),
            res is None ==> self.address() is None,
    {
        let seeds = self.to_list();
        let program = self.owner();
        try_find_program_address(&seeds, &program)
    }
}

/// A collection's mint together with the candy machine it belongs to.
#[derive(Clone, Copy, Debug)]
pub struct CollectionPDA {
    pub mint: Address,
    pub candy_machine: Address,
}

/// The metadata account of `mint`.
///
/// The result is a function of the mint alone: two calls with the same mint
/// give the same address. The precondition leaves out a mint for which no
/// bump seed yields an address; `try_find_metadata_pda` tests for that.
pub fn find_metadata_pda(mint: &Address) -> (pda: Address)
    requires
        metadata_address(mint@) is Some,
    ensures
        pda@ == metadata_address(mint@).unwrap().0,
{
    let (pda, _bump) = metadata_find_pda(mint);
    pda
}

/// The metadata account of `mint`, or `None` where none can be derived.
pub fn try_find_metadata_pda(mint: &Address) -> (res: Option<Address>)
    ensures
        res matches Some(pda) ==> metadata_address(mint@) is Some && pda@ == metadata_address(
            mint@,
        ).unwrap().0,
        res is None ==> metadata_address(mint@) is None,
{
    match (Seeds::Metadata { mint: *mint }).derive() {
        Some(_) => Some(find_metadata_pda(mint)),
        None => None,
    }
}

/// Derivation is deterministic: whatever `find_metadata_pda` and
/// `find_master_edition_pda` return for a mint, they return again for the
/// same mint.
pub proof fn lemma_derivation_is_deterministic(
    mint: Address,
    again: Address,
    metadata: Address,
    metadata_again: Address,
    edition: Address,
    edition_again: Address,
)
    requires
        mint@ == again@,
        metadata@ == metadata_address(mint@).unwrap().0,
        metadata_again@ == metadata_address(again@).unwrap().0,
        edition@ == master_edition_address(mint@).unwrap().0,
        edition_again@ == master_edition_address(again@).unwrap().0,
    ensures
        metadata == metadata_again,
        edition == edition_again,
{
    lemma_address_is_its_bytes(metadata, metadata_again);
    lemma_address_is_its_bytes(edition, edition_again);
}

/// The master-edition account of `mint`.
///
/// The result is a function of the mint alone. The precondition leaves out
/// a mint for which no bump seed yields an address;
/// `try_find_master_edition_pda` tests for that.
pub fn find_master_edition_pda(mint: &Address) -> (pda: Address)
    requires
        master_edition_address(mint@) is Some,
    ensures
        pda@ == master_edition_address(mint@).unwrap().0,
{
    let (pda, _bump) = master_edition_find_pda(mint);
    pda
}

/// The master-edition account of `mint`, or `None` where none can be
/// derived.
pub fn try_find_master_edition_pda(mint: &Address) -> (res: Option<Address>)
    ensures
        res matches Some(pda) ==> master_edition_address(mint@) is Some && pda@
            == master_edition_address(mint@).unwrap().0,
        res is None ==> master_edition_address(mint@) is None,
{
    match (Seeds::MasterEdition { mint: *mint }).derive() {
        Some(_) => Some(find_master_edition_pda(mint)),
        None => None,
    }
}

/// The creator address of a candy machine and the bump seed that yields it.
pub fn find_candy_machine_creator_pda(candy_machine_id: &Address) -> (pda: (Address, u8))
    requires
        candy_machine_creator_address(candy_machine_id@) is Some,
    ensures
        candy_machine_creator_address(candy_machine_id@) == Some((pda.0@, pda.1)),
{
    let creator_seeds = (Seeds::CandyMachineCreator { candy_machine: *candy_machine_id }).to_list();
    find_program_address(&creator_seeds, &candy_machine_program_id())
}

/// The creator address of a candy machine with its bump seed, or `None`
/// where none can be derived.
pub fn try_find_candy_machine_creator_pda(candy_machine_id: &Address) -> (res: Option<
    (Address, u8),
>)
    ensures
        res matches Some(pda) ==> candy_machine_creator_address(candy_machine_id@) == Some(
            (pda.0@, pda.1),
        ),
        res is None ==> candy_machine_creator_address(candy_machine_id@) is None,
{
    match (Seeds::CandyMachineCreator { candy_machine: *candy_machine_id }).derive() {
        Some(_) => Some(find_candy_machine_creator_pda(candy_machine_id)),
        None => None,
    }
}

/// The collection address of a candy machine and the bump seed that yields
/// it.
pub fn find_collection_pda(candy_machine_id: &Address) -> (pda: (Address, u8))
    requires
        collection_address(candy_machine_id@) is Some,
    ensures
        collection_address(candy_machine_id@) == Some((pda.0@, pda.1)),
{
    let collection_seeds = (Seeds::Collection { candy_machine: *candy_machine_id }).to_list();
    find_program_address(&collection_seeds, &candy_machine_program_id())
}

/// The collection address of a candy machine with its bump seed, or `None`
/// where none can be derived.
pub fn try_find_collection_pda(candy_machine_id: &Address) -> (res: Option<(Address, u8)>)
    ensures
        res matches Some(pda) ==> collection_address(candy_machine_id@) == Some((pda.0@, pda.1)),
        res is None ==> collection_address(candy_machine_id@) is None,
{
    match (Seeds::Collection { candy_machine: *candy_machine_id }).derive() {
        Some(_) => Some(find_collection_pda(candy_machine_id)),
        None => None,
    }
}

/// The holding account bound to `wallet` and `mint` under the token program.
pub fn find_holding_address(wallet: &Address, mint: &Address) -> (pda: Address)
    requires
        holding_address(wallet@, mint@) is Some,
    ensures
        pda@ == holding_address(wallet@, mint@).unwrap().0,
{
    associated_token_address(wallet, mint)
}

/// The holding account bound to `wallet` and `mint`, or `None` where none
/// can be derived.
pub fn try_find_holding_address(wallet: &Address, mint: &Address) -> (res: Option<Address>)
    ensures
        res matches Some(pda) ==> holding_address(wallet@, mint@) is Some && pda@
            == holding_address(wallet@, mint@).unwrap().0,
        res is None ==> holding_address(wallet@, mint@) is None,
{
    match (Seeds::Holding { wallet: *wallet, mint: *mint }).derive() {
        Some(_) => Some(find_holding_address(wallet, mint)),
        None => None,
    }
}

/// A derived address together with what the account there holds.
pub type PdaInfo<T> = (Address, T);

/// The metadata record of a mint as the token-metadata program stores it.
/// The library hands such a record on as it was decoded and does not look
/// into it.
#[verifier::external_type_specification]
#[verifier::external_body]
pub struct ExMetadata(Metadata);

/// The metadata record that account data decodes to, or `None` where it
/// decodes to none.
pub uninterp spec fn decoded_metadata(data: Seq<u8>) -> Option<Metadata>;

/// Calls `Metadata::safe_deserialize`. The contract names the outcome, which
/// depends on the data alone, and states the one check that comes before
/// the decoding: data that is empty or does not begin with the metadata key,
/// the byte 4, is refused.
#[verifier::external_body]
fn metadata_safe_deserialize(data: &[u8]) -> (res: Option<Metadata>)
    ensures
        res == decoded_metadata(data@),
        res is Some ==> data@.len() > 0 && data@[0] == 4,
{
    Metadata::safe_deserialize(data).ok()
}

/// The kind of record that an account of the token-metadata program holds,
/// told by the first byte of its data.
#[derive(Clone, Copy, Debug, PartialEq, Eq, Structural)]
pub enum Key {
    Uninitialized,
    EditionV1,
    MasterEditionV1,
    ReservationListV1,
    MetadataV1,
    ReservationListV2,
    MasterEditionV2,
    EditionMarker,
    UseAuthorityRecord,
    CollectionAuthorityRecord,
    TokenOwnedEscrow,
    TokenRecord,
    MetadataDelegate,
    EditionMarkerV2,
}

impl Key {
    /// The key that a byte stands for; bytes from 14 on stand for none.
    pub open spec fn of_code(code: u8) -> Option<Key> {
        if code == 0 {
            Some(Key::Uninitialized)
        } else if code == 1 {
            Some(Key::EditionV1)
        } else if code == 2 {
            Some(Key::MasterEditionV1)
        } else if code == 3 {
            Some(Key::ReservationListV1)
        } else if code == 4 {
            Some(Key::MetadataV1)
        } else if code == 5 {
            Some(Key::ReservationListV2)
        } else if code == 6 {
            Some(Key::MasterEditionV2)
        } else if code == 7 {
            Some(Key::EditionMarker)
        } else if code == 8 {
            Some(Key::UseAuthorityRecord)
        } else if code == 9 {
            Some(Key::CollectionAuthorityRecord)
        } else if code == 10 {
            Some(Key::TokenOwnedEscrow)
        } else if code == 11 {
            Some(Key::TokenRecord)
        } else if code == 12 {
            Some(Key::MetadataDelegate)
        } else if code == 13 {
            Some(Key::EditionMarkerV2)
        } else {
            None
        }
    }

    /// The key that a byte stands for.
    pub fn from_code(code: u8) -> (key: Option<Key>)
        ensures
            key == Key::of_code(code),
    {
        match code {
            0 => Some(Key::Uninitialized),
            1 => Some(Key::EditionV1),
            2 => Some(Key::MasterEditionV1),
            3 => Some(Key::ReservationListV1),
            4 => Some(Key::MetadataV1),
            5 => Some(Key::ReservationListV2),
            6 => Some(Key::MasterEditionV2),
            7 => Some(Key::EditionMarker),
            8 => Some(Key::UseAuthorityRecord),
            9 => Some(Key::CollectionAuthorityRecord),
            10 => Some(Key::TokenOwnedEscrow),
            11 => Some(Key::TokenRecord),
            12 => Some(Key::MetadataDelegate),
            13 => Some(Key::EditionMarkerV2),
            _ => None,
        }
    }
}

/// The master-edition record of a mint: the kind of record, how many copies
/// have been printed, and the cap on them (`None` for no cap).
#[derive(Clone, Copy, Debug, PartialEq, Eq, Structural)]
pub struct MasterEditionRecord {
    pub key: Key,
    pub supply: u64,
    pub max_supply: Option<u64>,
}

/// The fields that account data holds where it decodes as a master-edition
/// record: the key byte, which must stand for a key; the supply in eight
/// bytes, low byte first; then 0 for no cap, or 1 and the cap in eight
/// bytes. Bytes behind the record are ignored.
pub open spec fn master_edition_fields(data: Seq<u8>) -> Option<(u8, u64, Option<u64>)> {
    if data.len() >= 10 && data[0] < 14 && data[9] == 0 {
        Some((data[0], spec_u64_from_le_bytes(data.subrange(1, 9)), None))
    } else if data.len() >= 18 && data[0] < 14 && data[9] == 1 {
        Some(
            (
                data[0],
                spec_u64_from_le_bytes(data.subrange(1, 9)),
                Some(spec_u64_from_le_bytes(data.subrange(10, 18))),
            ),
        )
    } else {
        None
    }
}

/// The master-edition record that account data decodes to.
pub open spec fn decoded_master_edition(data: Seq<u8>) -> Option<MasterEditionRecord> {
    match master_edition_fields(data) {
        Some((code, supply, max_supply)) => Some(
            MasterEditionRecord { key: Key::of_code(code).unwrap(), supply, max_supply },
        ),
        None => None,
    }
}

/// Calls `MasterEdition::from_bytes`, which decodes a key, a supply and an
/// optional cap from the front of the data and does not ask which key it
/// is. The contract states the fields that come out, the key as its byte.
#[verifier::external_body]
fn master_edition_from_bytes(data: &[u8]) -> (res: Option<(u8, u64, Option<u64>)>)
    ensures
        res == master_edition_fields(data@),
{
    MasterEdition::from_bytes(data).ok().map(|m| (m.key as u8, m.supply, m.max_supply))
}

/// The outcome of a lookup as contracts speak of it.
pub open spec fn lookup_view<T>(res: Result<PdaInfo<T>, Error>) -> Result<(Seq<u8>, T), ErrorView> {
    match res {
        Ok((address, record)) => Ok((address@, record)),
        Err(error) => Err(error@),
    }
}

/// What looking up the record of kind `kind` at `derived` gives, when the
/// ledger returned `account` for the derived address and the account's data
/// decodes to `decoded`.
pub open spec fn lookup<T>(
    kind: AccountKind,
    mint: Seq<u8>,
    derived: Option<(Seq<u8>, u8)>,
    account: Option<Vec<u8>>,
    decoded: Option<T>,
) -> Result<(Seq<u8>, T), ErrorView> {
    match derived {
        None => Err(ErrorView::NoDerivedAddress { mint }),
        Some((address, _)) => match account {
            None => Err(ErrorView::AccountNotFound { kind, address }),
            Some(_) => match decoded {
                None => Err(ErrorView::DeserializeFailed { kind, address }),
                Some(record) => Ok((address, record)),
            },
        },
    }
}

/// The data of an account that may be absent.
pub open spec fn account_data(account: Option<Vec<u8>>) -> Seq<u8> {
    match account {
        Some(data) => data@,
        None => Seq::empty(),
    }
}

/// The metadata record of `mint`, with the address it lies at.
///
/// `account` is the data that the ledger returned for the metadata address
/// of the mint (see `try_find_metadata_pda`), or `None` where it returned no
/// account. An absent account and data that does not decode give different
/// errors, each with the address.
pub fn get_metadata_pda(mint: &Address, account: Option<Vec<u8>>) -> (res: Result<
    PdaInfo<Metadata>,
    Error,
>)
    ensures
        lookup_view(res) == lookup(
            AccountKind::Metadata,
            mint@,
            metadata_address(mint@),
            account,
            decoded_metadata(account_data(account)),
        ),
{
    let metadata_pubkey = match try_find_metadata_pda(mint) {
        Some(address) => address,
        None => {
            return Err(Error::NoDerivedAddress { mint: *mint });
        },
    };
    let metadata_account = match account {
        Some(data) => data,
        None => {
            return Err(
                Error::AccountNotFound { kind: AccountKind::Metadata, address: metadata_pubkey },
            );
        },
    };
    match metadata_safe_deserialize(metadata_account.as_slice()) {
        Some(metadata) => Ok((metadata_pubkey, metadata)),
        None => Err(
            Error::DeserializeFailed { kind: AccountKind::Metadata, address: metadata_pubkey },
        ),
    }
}

/// The master-edition record of `mint`, with the address it lies at.
///
/// `account` is the data that the ledger returned for the master-edition
/// address of the mint (see `try_find_master_edition_pda`), or `None` where
/// it returned no account. An absent account and data that does not decode
/// give different errors, each with the address.
pub fn get_master_edition_pda(mint: &Address, account: Option<Vec<u8>>) -> (res: Result<
    PdaInfo<MasterEditionRecord>,
    Error,
>)
    ensures
        lookup_view(res) == lookup(
            AccountKind::MasterEdition,
            mint@,
            master_edition_address(mint@),
            account,
            decoded_master_edition(account_data(account)),
        ),
{
    let master_edition_pubkey = match try_find_master_edition_pda(mint) {
        Some(address) => address,
        None => {
            return Err(Error::NoDerivedAddress { mint: *mint });
        },
    };
    let master_edition_account = match account {
        Some(data) => data,
        None => {
            return Err(
                Error::AccountNotFound {
                    kind: AccountKind::MasterEdition,
                    address: master_edition_pubkey,
                },
            );
        },
    };
    let fields = master_edition_from_bytes(master_edition_account.as_slice());
    let record = match fields {
        Some((code, supply, max_supply)) => match Key::from_code(code) {
            Some(key) => Some(MasterEditionRecord { key, supply, max_supply }),
            None => None,
        },
        None => None,
    };
    match record {
        Some(master_edition) => Ok((master_edition_pubkey, master_edition)),
        None => Err(
            Error::DeserializeFailed {
                kind: AccountKind::MasterEdition,
                address: master_edition_pubkey,
            },
        ),
    }
}

} // verus!
