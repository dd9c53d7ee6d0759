//! Ledger instructions: the library's own model of them, what each builder
//! of the ledger's client crates returns, and the calls to those builders.

use vstd::prelude::*;
use vstd::bytes::{spec_u16_to_le_bytes, spec_u32_to_le_bytes, spec_u64_to_le_bytes};
use vstd::string::*;
use vstd::utf8::encode_utf8;
use crate::address::{
    associated_token_program_bytes, compute_budget_program_bytes, rent_sysvar_bytes,
    system_program_bytes, token_metadata_program_bytes, token_program_bytes, Address,
};
use crate::pdas::holding_address;
use mpl_token_metadata::instructions::{
    CreateMasterEditionV3Builder, CreateMetadataAccountV3Builder,
};
use mpl_token_metadata::types::{CollectionDetails, Creator as MetadataCreator, DataV2};
use solana_sdk::compute_budget::ComputeBudgetInstruction;
use solana_sdk::pubkey::Pubkey;
use solana_sdk::system_instruction;

verus! {

/// One account that an instruction refers to, with what the instruction may
/// do with it.
#[derive(Clone, Copy, Debug, PartialEq, Eq)]
pub struct AccountMeta {
    pub address: Address,
    pub is_signer: bool,
    pub is_writable: bool,
}

/// The mathematical view of an `AccountMeta`.
pub struct AccountMetaView {
    pub address: Seq<u8>,
    pub is_signer: bool,
    pub is_writable: bool,
}

impl View for AccountMeta {
    type V = AccountMetaView;

    open spec fn view(&self) -> AccountMetaView {
        AccountMetaView {
            address: self.address@,
            is_signer: self.is_signer,
            is_writable: self.is_writable,
        }
    }
}

impl AccountMeta {
    /// An account reference from its parts.
    pub fn new(address: [u8; 32], is_signer: bool, is_writable: bool) -> (meta: AccountMeta)
        ensures
            meta@ == (AccountMetaView { address: address@, is_signer, is_writable }),
    {
        AccountMeta { address: Address::new(address), is_signer, is_writable }
    }
}

/// A writable account reference.
pub open spec fn writable(address: Seq<u8>, is_signer: bool) -> AccountMetaView {
    AccountMetaView { address, is_signer, is_writable: true }
}

/// A read-only account reference.
pub open spec fn readonly(address: Seq<u8>, is_signer: bool) -> AccountMetaView {
    AccountMetaView { address, is_signer, is_writable: false }
}

/// One instruction for the ledger: the program that runs it, the accounts it
/// refers to, in the order the program expects them, and its data.
#[derive(Clone, Debug, PartialEq, Eq)]
pub struct Instruction {
    pub program_id: Address,
    pub accounts: Vec<AccountMeta>,
    pub data: Vec<u8>,
}

/// The mathematical view of an `Instruction`.
pub struct InstructionView {
    pub program_id: Seq<u8>,
    pub accounts: Seq<AccountMetaView>,
    pub data: Seq<u8>,
}

impl View for Instruction {
    type V = InstructionView;

    open spec fn view(&self) -> InstructionView {
        InstructionView {
            program_id: self.program_id@,
            accounts: self.accounts@.map_values(|meta: AccountMeta| meta@),
            data: self.data@,
        }
    }
}

impl Instruction {
    /// An instruction from its parts.
    pub fn new(program_id: [u8; 32], accounts: Vec<AccountMeta>, data: Vec<u8>) -> (ix:
        Instruction)
        ensures
            ix.program_id@ == program_id@,
            ix.accounts == accounts,
            ix.data == data,
    {
        Instruction { program_id: Address::new(program_id), accounts, data }
    }
}

/// The views of a batch of instructions, in order.
pub open spec fn batch_view(batch: Seq<Instruction>) -> Seq<InstructionView> {
    batch.map_values(|ix: Instruction| ix@)
}

/// One creator named in a metadata record: who, whether they have confirmed
/// it, and their share of the revenue in percent.
#[derive(Clone, Copy, Debug, PartialEq, Eq)]
pub struct Creator {
    pub address: Address,
    pub verified: bool,
    pub share: u8,
}

/// The mathematical view of a `Creator`.
pub struct CreatorView {
    pub address: Seq<u8>,
    pub verified: bool,
    pub share: u8,
}

impl View for Creator {
    type V = CreatorView;

    open spec fn view(&self) -> CreatorView {
        CreatorView { address: self.address@, verified: self.verified, share: self.share }
    }
}

/// What a metadata record says of its mint. A record built here never names
/// a parent collection nor a use limit.
#[derive(Clone, Debug, PartialEq, Eq)]
pub struct MetadataData {
    pub name: String,
    pub symbol: String,
    pub uri: String,
    pub seller_fee_basis_points: u16,
    pub creators: Vec<Creator>,
}

/// The mathematical view of a `MetadataData`.
pub struct MetadataDataView {
    pub name: Seq<char>,
    pub symbol: Seq<char>,
    pub uri: Seq<char>,
    pub seller_fee_basis_points: u16,
    pub creators: Seq<CreatorView>,
}

impl View for MetadataData {
    type V = MetadataDataView;

    open spec fn view(&self) -> MetadataDataView {
        MetadataDataView {
            name: self.name@,
            symbol: self.symbol@,
            uri: self.uri@,
            seller_fee_basis_points: self.seller_fee_basis_points,
            creators: self.creators@.map_values(|creator: Creator| creator@),
        }
    }
}

/// The bytes of an address that may be absent.
pub open spec fn optional_bytes(address: Option<&Address>) -> Option<Seq<u8>> {
    match address {
        Some(address) => Some(address@),
        None => None,
    }
}

/// The record with the given texts and royalty and one creator.
pub open spec fn single_creator_data(
    name: Seq<char>,
    symbol: Seq<char>,
    uri: Seq<char>,
    seller_fee_basis_points: u16,
    creator: Seq<u8>,
    verified: bool,
    share: u8,
) -> MetadataDataView {
    MetadataDataView {
        name,
        symbol,
        uri,
        seller_fee_basis_points,
        creators: seq![CreatorView { address: creator, verified, share }],
    }
}

/// A flag as one byte.
pub open spec fn bool_byte(flag: bool) -> Seq<u8> {
    if flag {
        seq![1u8]
    } else {
        seq![0u8]
    }
}

/// A string in the length-prefixed encoding of instruction data: the number
/// of its UTF-8 bytes in four bytes, low byte first, then the bytes.
pub open spec fn string_bytes(text: Seq<char>) -> Seq<u8> {
    spec_u32_to_le_bytes(encode_utf8(text).len() as u32) + encode_utf8(text)
}

/// One creator in instruction data: address, verified flag, share.
pub open spec fn creator_bytes(creator: CreatorView) -> Seq<u8> {
    creator.address + bool_byte(creator.verified) + seq![creator.share]
}

/// The creators of a record in instruction data, one after the other.
pub open spec fn creators_bytes(creators: Seq<CreatorView>) -> Seq<u8>
    decreases creators.len(),
{
    if creators.len() == 0 {
        seq![]
    } else {
        creator_bytes(creators[0]) + creators_bytes(creators.drop_first())
    }
}

/// A metadata record in instruction data: name, symbol, URI, royalty, the
/// creator list behind its presence byte and its length, and the two absence
/// bytes of the parent collection and the use limit.
pub open spec fn metadata_data_bytes(data: MetadataDataView) -> Seq<u8> {
    string_bytes(data.name) + string_bytes(data.symbol) + string_bytes(data.uri)
        + spec_u16_to_le_bytes(data.seller_fee_basis_points) + seq![1u8] + spec_u32_to_le_bytes(
        data.creators.len() as u32,
    ) + creators_bytes(data.creators) + seq![0u8, 0u8]
}

/// The instruction that sets the price of a compute unit, in millionths of
/// the ledger's smallest currency unit.
pub open spec fn set_compute_unit_price_ix(micro_lamports: u64) -> InstructionView {
    InstructionView {
        program_id: compute_budget_program_bytes(),
        accounts: seq![],
        data: seq![3u8] + spec_u64_to_le_bytes(micro_lamports),
    }
}

/// The system program's instruction that allocates the account `to`, paid
/// for by `from`, with `lamports` as balance, `space` bytes of data and
/// `owner` as its owning program.
pub open spec fn create_account_ix(
    from: Seq<u8>,
    to: Seq<u8>,
    lamports: u64,
    space: u64,
    owner: Seq<u8>,
) -> InstructionView {
    InstructionView {
        program_id: system_program_bytes(),
        accounts: seq![writable(from, true), writable(to, true)],
        data: spec_u32_to_le_bytes(0) + spec_u64_to_le_bytes(lamports) + spec_u64_to_le_bytes(
            space,
        ) + owner,
    }
}

/// The token program's instruction that initializes `mint` as a mint with
/// the given authorities and number of decimals.
pub open spec fn initialize_mint_ix(
    mint: Seq<u8>,
    mint_authority: Seq<u8>,
    freeze_authority: Option<Seq<u8>>,
    decimals: u8,
) -> InstructionView {
    InstructionView {
        program_id: token_program_bytes(),
        accounts: seq![writable(mint, false), readonly(rent_sysvar_bytes(), false)],
        data: seq![0u8, decimals] + mint_authority + match freeze_authority {
            Some(authority) => seq![1u8] + authority,
            None => seq![0u8],
        },
    }
}

/// The instruction that creates the holding account bound to `wallet` and
/// `mint` under the token program, paid for by `funding`.
pub open spec fn create_holding_account_ix(
    funding: Seq<u8>,
    wallet: Seq<u8>,
    mint: Seq<u8>,
) -> InstructionView {
    InstructionView {
        program_id: associated_token_program_bytes(),
        accounts: seq![
            writable(funding, true),
            writable(holding_address(wallet, mint).unwrap().0, false),
            readonly(wallet, false),
            readonly(mint, false),
            readonly(system_program_bytes(), false),
            readonly(token_program_bytes(), false),
        ],
        data: seq![0u8],
    }
}

/// The token program's instruction that mints `amount` units of `mint` into
/// `account`, authorized by the single signer `owner`.
pub open spec fn mint_to_ix(
    mint: Seq<u8>,
    account: Seq<u8>,
    owner: Seq<u8>,
    amount: u64,
) -> InstructionView {
    InstructionView {
        program_id: token_program_bytes(),
        accounts: seq![writable(mint, false), writable(account, false), readonly(owner, true)],
        data: seq![7u8] + spec_u64_to_le_bytes(amount),
    }
}

/// The token-metadata program's instruction that creates the metadata
/// record of `mint`, with the update authority as a signer and the marker
/// of a collection of `collection_size` members.
pub open spec fn create_metadata_ix(
    metadata: Seq<u8>,
    mint: Seq<u8>,
    mint_authority: Seq<u8>,
    payer: Seq<u8>,
    update_authority: Seq<u8>,
    data: MetadataDataView,
    is_mutable: bool,
    collection_size: u64,
) -> InstructionView {
    InstructionView {
        program_id: token_metadata_program_bytes(),
        accounts: seq![
            writable(metadata, false),
            readonly(mint, false),
            readonly(mint_authority, true),
            writable(payer, true),
            readonly(update_authority, true),
            readonly(system_program_bytes(), false),
        ],
        data: seq![33u8] + metadata_data_bytes(data) + bool_byte(is_mutable) + seq![1u8, 0u8]
            + spec_u64_to_le_bytes(collection_size),
    }
}

/// The token-metadata program's instruction that creates the master-edition
/// record of `mint` with a cap on printed copies.
pub open spec fn create_master_edition_ix(
    edition: Seq<u8>,
    mint: Seq<u8>,
    update_authority: Seq<u8>,
    mint_authority: Seq<u8>,
    payer: Seq<u8>,
    metadata: Seq<u8>,
    max_supply: u64,
) -> InstructionView {
    InstructionView {
        program_id: token_metadata_program_bytes(),
        accounts: seq![
            writable(edition, false),
            writable(mint, false),
            readonly(update_authority, true),
            readonly(mint_authority, true),
            writable(payer, true),
            writable(metadata, false),
            readonly(token_program_bytes(), false),
            readonly(system_program_bytes(), false),
        ],
        data: seq![17u8, 1u8] + spec_u64_to_le_bytes(max_supply),
    }
}

/// Calls `ComputeBudgetInstruction::set_compute_unit_price`. The contract
/// states the program, the empty account list and the data: the variant's
/// index 3, then the price in eight bytes, low byte first.
#[verifier::external_body]
pub(crate) fn set_compute_unit_price(micro_lamports: u64) -> (ix: Instruction)
    ensures
        ix@ == set_compute_unit_price_ix(micro_lamports),
{
    let ix = ComputeBudgetInstruction::set_compute_unit_price(micro_lamports);
    let accounts = ix.accounts.iter()
        .map(|m| AccountMeta::new(m.pubkey.to_bytes(), m.is_signer, m.is_writable)).collect();
    Instruction::new(ix.program_id.to_bytes(), accounts, ix.data)
}

/// Calls `system_instruction::create_account`. The contract states the
/// program, the two accounts, both writable signers, and the data: the
/// variant's index 0 in four bytes, the balance and the size in eight bytes
/// each, low byte first, then the owner's 32 bytes.
#[verifier::external_body]
pub(crate) fn create_account(
    from: &Address,
    to: &Address,
    lamports: u64,
    space: u64,
    owner: &Address,
) -> (ix: Instruction)
    ensures
        ix@ == create_account_ix(from@, to@, lamports, space, owner@),
{
    let key = |a: &Address| Pubkey::new_from_array(a.bytes);
    let ix = system_instruction::create_account(&key(from), &key(to), lamports, space, &key(owner));
    let accounts = ix.accounts.iter()
        .map(|m| AccountMeta::new(m.pubkey.to_bytes(), m.is_signer, m.is_writable)).collect();
    Instruction::new(ix.program_id.to_bytes(), accounts, ix.data)
}

/// Calls `spl_token::instruction::initialize_mint` for the token program
/// itself, for which it returns `Ok`. The contract states the program, the
/// two accounts (the mint, writable, and the rent system variable) and the
/// data: tag 0, the decimals, the mint authority, then 1 and the freeze
/// authority, or 0 where there is none.
#[verifier::external_body]
pub(crate) fn initialize_mint(
    mint: &Address,
    mint_authority: &Address,
    freeze_authority: Option<&Address>,
    decimals: u8,
) -> (res: Option<Instruction>)
    ensures
        res is Some,
        res.unwrap()@ == initialize_mint_ix(
            mint@,
            mint_authority@,
            optional_bytes(freeze_authority),
            decimals,
        ),
{
    let key = |a: &Address| Pubkey::new_from_array(a.bytes);
    let freeze = freeze_authority.map(key);
    let ix = spl_token::instruction::initialize_mint(
        &spl_token::ID, &key(mint), &key(mint_authority), freeze.as_ref(), decimals).ok()?;
    let accounts = ix.accounts.iter()
        .map(|m| AccountMeta::new(m.pubkey.to_bytes(), m.is_signer, m.is_writable)).collect();
    Some(Instruction::new(ix.program_id.to_bytes(), accounts, ix.data))
}

/// Calls `spl_associated_token_account::instruction::create_associated_token_account`
/// for the token program. It derives the holding account itself and panics
/// where none exists; the precondition leaves that out. The contract states
/// the program, the six accounts and the data, the single byte 0.
#[verifier::external_body]
pub(crate) fn create_associated_token_account(
    funding: &Address,
    wallet: &Address,
    mint: &Address,
) -> (ix: Instruction)
    requires
        holding_address(wallet@, mint@) is Some,
    ensures
        ix@ == create_holding_account_ix(funding@, wallet@, mint@),
{
    let key = |a: &Address| Pubkey::new_from_array(a.bytes);
    let ix = spl_associated_token_account::instruction::create_associated_token_account(
        &key(funding), &key(wallet), &key(mint), &spl_token::ID);
    let accounts = ix.accounts.iter()
        .map(|m| AccountMeta::new(m.pubkey.to_bytes(), m.is_signer, m.is_writable)).collect();
    Instruction::new(ix.program_id.to_bytes(), accounts, ix.data)
}

/// Calls `spl_token::instruction::mint_to` for the token program itself and
/// without further signers, for which it returns `Ok`. The contract states
/// the program, the three accounts (mint and destination writable, the
/// owner a read-only signer) and the data: tag 7, then the amount in eight
/// bytes, low byte first.
#[verifier::external_body]
pub(crate) fn mint_to(
    mint: &Address,
    account: &Address,
    owner: &Address,
    amount: u64,
) -> (res: Option<Instruction>)
    ensures
        res is Some,
        res.unwrap()@ == mint_to_ix(mint@, account@, owner@, amount),
{
    let key = |a: &Address| Pubkey::new_from_array(a.bytes);
    let ix = spl_token::instruction::mint_to(
        &spl_token::ID, &key(mint), &key(account), &key(owner), &[], amount).ok()?;
    let accounts = ix.accounts.iter()
        .map(|m| AccountMeta::new(m.pubkey.to_bytes(), m.is_signer, m.is_writable)).collect();
    Some(Instruction::new(ix.program_id.to_bytes(), accounts, ix.data))
}

/// Calls `CreateMetadataAccountV3Builder` with one creator, no parent
/// collection, no use limit, the update authority as a signer and the
/// collection marker of the given size. The builder panics where a string
/// has more bytes than fit in a 32-bit length; the precondition leaves that
/// out. The contract states the program, the six accounts and the data:
/// discriminator 33, the record, the mutability byte, then 1, 0 and the size
/// in eight bytes, low byte first.
#[verifier::external_body]
pub(crate) fn create_metadata_account_v3(
    metadata: &Address,
    mint: &Address,
    mint_authority: &Address,
    payer: &Address,
    update_authority: &Address,
    name: String,
    symbol: String,
    uri: String,
    seller_fee_basis_points: u16,
    creator: &Address,
    verified: bool,
    share: u8,
    is_mutable: bool,
    size: u64,
) -> (ix: Instruction)
    requires
        encode_utf8(name@).len() <= u32::MAX,
        encode_utf8(symbol@).len() <= u32::MAX,
        encode_utf8(uri@).len() <= u32::MAX,
    ensures
        ix@ == create_metadata_ix(
            metadata@,
            mint@,
            mint_authority@,
            payer@,
            update_authority@,
            single_creator_data(
                name@,
                symbol@,
                uri@,
                seller_fee_basis_points,
                creator@,
                verified,
                share,
            ),
            is_mutable,
            size,
        ),
{
    let key = |a: &Address| Pubkey::new_from_array(a.bytes);
    let creators = Some(vec![MetadataCreator { address: key(creator), verified, share }]);
    let ix = CreateMetadataAccountV3Builder::new()
        .metadata(key(metadata)).mint(key(mint)).mint_authority(key(mint_authority))
        .payer(key(payer)).update_authority(key(update_authority), true)
        .data(DataV2 { name, symbol, uri, seller_fee_basis_points, creators, collection: None, uses: None })
        .collection_details(CollectionDetails::V1 { size })
        .is_mutable(is_mutable).instruction();
    let accounts = ix.accounts.iter()
        .map(|m| AccountMeta::new(m.pubkey.to_bytes(), m.is_signer, m.is_writable)).collect();
    Instruction::new(ix.program_id.to_bytes(), accounts, ix.data)
}

/// Calls `CreateMasterEditionV3Builder` with a cap on printed copies. The
/// contract states the program, the eight accounts and the data:
/// discriminator 17, the presence byte 1, then the cap in eight bytes, low
/// byte first.
#[verifier::external_body]
pub(crate) fn create_master_edition_v3(
    edition: &Address,
    mint: &Address,
    update_authority: &Address,
    mint_authority: &Address,
    payer: &Address,
    metadata: &Address,
    max_supply: u64,
) -> (ix: Instruction)
    ensures
        ix@ == create_master_edition_ix(
            edition@,
            mint@,
            update_authority@,
            mint_authority@,
            payer@,
            metadata@,
            max_supply,
        ),
{
    let key = |a: &Address| Pubkey::new_from_array(a.bytes);
    let ix = CreateMasterEditionV3Builder::new()
        .edition(key(edition)).mint(key(mint)).update_authority(key(update_authority))
        .mint_authority(key(mint_authority)).metadata(key(metadata)).payer(key(payer))
        .max_supply(max_supply).instruction();
    let accounts = ix.accounts.iter()
        .map(|m| AccountMeta::new(m.pubkey.to_bytes(), m.is_signer, m.is_writable)).collect();
    Instruction::new(ix.program_id.to_bytes(), accounts, ix.data)
}

} // verus!
