//! Creation of a collection asset: a mint of which exactly one unit exists,
//! with a metadata record and a master-edition record, all created by one
//! instruction batch.

use vstd::prelude::*;
use vstd::pervasive::unreached;
use vstd::string::*;
use vstd::utf8::encode_utf8;
use crate::address::{base58_text, token_program_bytes, token_program_id, Address};
use crate::cache::{collection_key, Cache, CacheItem, CacheItemView, CacheView};
use crate::config::ConfigData;
use crate::deploy::DeployArgs;
use crate::error::{Error, ErrorView};
use crate::signer::{MintKeypair, Signature};
use crate::instruction::{
    batch_view, create_account, create_account_ix, create_associated_token_account,
    create_holding_account_ix, create_master_edition_ix, create_master_edition_v3,
    create_metadata_account_v3, create_metadata_ix, initialize_mint, initialize_mint_ix, mint_to,
    mint_to_ix, set_compute_unit_price, set_compute_unit_price_ix, single_creator_data, Creator,
    CreatorView, Instruction, InstructionView, MetadataData, MetadataDataView,
};
use crate::pdas::{
    find_holding_address, find_master_edition_pda, find_metadata_pda, holding_address,
    master_edition_address, metadata_address, try_find_holding_address,
    try_find_master_edition_pda, try_find_metadata_pda,
};

verus! {

/// The size in bytes of a mint account.
pub const MINT_LAYOUT: u64 = 82;

/// The metadata record of a collection asset: one verified creator, the
/// payer, with the whole share; no royalty.
pub open spec fn collection_data(
    payer: Seq<u8>,
    name: Seq<char>,
    symbol: Seq<char>,
    uri: Seq<char>,
) -> MetadataDataView {
    single_creator_data(name, symbol, uri, 0, payer, true, 100)
}

/// Builds the metadata record of a collection asset.
///
/// Its creator list holds exactly one entry, the payer, verified and with a
/// share of 100, and its royalty is zero basis points.
pub fn collection_metadata(payer: &Address, name: String, symbol: String, uri: String) -> (data:
    MetadataData)
    ensures
        data@ == collection_data(payer@, name@, symbol@, uri@),
        data@.seller_fee_basis_points == 0,
        data@.creators == seq![CreatorView { address: payer@, verified: true, share: 100 }],
{
    let creator = Creator { address: *payer, verified: true, share: 100 };
    let mut creators: Vec<Creator> = Vec::new();
    creators.push(creator);
    let data = MetadataData { name, symbol, uri, seller_fee_basis_points: 0, creators };
    assert(data@.creators =~= seq![CreatorView { address: payer@, verified: true, share: 100 }]);
    data
}

/// Whether the three derived accounts of a collection mint exist: the
/// payer's holding account, the metadata account and the master-edition
/// account.
pub open spec fn accounts_derivable(payer: Seq<u8>, mint: Seq<u8>) -> bool {
    &&& holding_address(payer, mint) is Some
    &&& metadata_address(mint) is Some
    &&& master_edition_address(mint) is Some
}

/// The instruction batch that creates a collection asset, in the order in
/// which the ledger has to run it:
///
/// 0. set the price of a compute unit;
/// 1. allocate the mint account with the rent-exempt balance;
/// 2. initialize it as a mint without decimals, the payer being mint and
///    freeze authority;
/// 3. create the payer's holding account for the mint;
/// 4. mint exactly one unit into it;
/// 5. create the metadata record at the mint's metadata address, mutable,
///    marked as a collection of size 0;
/// 6. create the master-edition record at the mint's master-edition address,
///    with no printed copies allowed.
pub open spec fn collection_batch(
    payer: Seq<u8>,
    mint: Seq<u8>,
    min_rent: u64,
    name: Seq<char>,
    symbol: Seq<char>,
    uri: Seq<char>,
    priority_fee: u64,
) -> Seq<InstructionView> {
    let holding = holding_address(payer, mint).unwrap().0;
    let metadata = metadata_address(mint).unwrap().0;
    let edition = master_edition_address(mint).unwrap().0;
    seq![
        set_compute_unit_price_ix(priority_fee),
        create_account_ix(payer, mint, min_rent, MINT_LAYOUT, token_program_bytes()),
        initialize_mint_ix(mint, payer, Some(payer), 0),
        create_holding_account_ix(payer, payer, mint),
        mint_to_ix(mint, holding, payer, 1),
        create_metadata_ix(
            metadata,
            mint,
            payer,
            payer,
            payer,
            collection_data(payer, name, symbol, uri),
            true,
            0,
        ),
        create_master_edition_ix(edition, mint, payer, payer, payer, metadata, 0),
    ]
}

/// The creator share of a collection: the metadata instruction of the batch
/// carries the collection's record, which names exactly one creator, the
/// payer, verified and with a share of 100, and asks for no royalty.
pub proof fn lemma_collection_creator_share(
    payer: Seq<u8>,
    mint: Seq<u8>,
    min_rent: u64,
    name: Seq<char>,
    symbol: Seq<char>,
    uri: Seq<char>,
    priority_fee: u64,
)
    ensures
        collection_data(payer, name, symbol, uri).creators == seq![
            CreatorView { address: payer, verified: true, share: 100 },
        ],
        collection_data(payer, name, symbol, uri).seller_fee_basis_points == 0,
        collection_batch(payer, mint, min_rent, name, symbol, uri, priority_fee)[5]
            == create_metadata_ix(
            metadata_address(mint).unwrap().0,
            mint,
            payer,
            payer,
            payer,
            collection_data(payer, name, symbol, uri),
            true,
            0,
        ),
{
}

/// Assembles the instruction batch that creates a collection asset for the
/// fresh mint `mint`, paid for and owned by `payer`.
///
/// The precondition leaves out a mint whose accounts cannot be derived
/// (`try_collection_instructions` tests for that) and texts whose length
/// does not fit the 32-bit length prefix of instruction data.
pub fn collection_instructions(
    payer: &Address,
    mint: &Address,
    min_rent: u64,
    collection_item: &CacheItem,
    config_data: &ConfigData,
    args: &DeployArgs,
) -> (batch: Vec<Instruction>)
    requires
        accounts_derivable(payer@, mint@),
        encode_utf8(collection_item.name@).len() <= u32::MAX,
        encode_utf8(collection_item.metadata_link@).len() <= u32::MAX,
        encode_utf8(config_data.symbol@).len() <= u32::MAX,
    ensures
        batch_view(batch@) == collection_batch(
            payer@,
            mint@,
            min_rent,
            collection_item.name@,
            config_data.symbol@,
            collection_item.metadata_link@,
            args.priority_fee,
        ),
{
    let priority_fee = set_compute_unit_price(args.priority_fee);

    let create_mint_account_ix = create_account(
        payer,
        mint,
        min_rent,
        MINT_LAYOUT,
        &token_program_id(),
    );

    let init_mint_ix = match initialize_mint(mint, payer, Some(payer), 0) {
        Some(ix) => ix,
        None => unreached(),
    };

    let ata_pubkey = find_holding_address(payer, mint);

    let create_assoc_account_ix = create_associated_token_account(payer, payer, mint);

    let mint_to_ix = match mint_to(mint, &ata_pubkey, payer, 1) {
        Some(ix) => ix,
        None => unreached(),
    };

    let data = collection_metadata(
        payer,
        collection_item.name.clone(),
        config_data.symbol.clone(),
        collection_item.metadata_link.clone(),
    );
    assert(data.creators@.len() == data@.creators.len());
    let creator = data.creators[0];
    assert(creator@ == data@.creators[0]);
    let collection_metadata_pubkey = find_metadata_pda(mint);

    let create_metadata_account_ix = create_metadata_account_v3(
        &collection_metadata_pubkey,
        mint,
        payer,
        payer,
        payer,
        data.name,
        data.symbol,
        data.uri,
        data.seller_fee_basis_points,
        &creator.address,
        creator.verified,
        creator.share,
        true,
        0,
    );

    let collection_edition_pubkey = find_master_edition_pda(mint);

    let create_master_edition_ix = create_master_edition_v3(
        &collection_edition_pubkey,
        mint,
        payer,
        payer,
        payer,
        &collection_metadata_pubkey,
        0,
    );

    let mut batch: Vec<Instruction> = Vec::new();
    batch.push(priority_fee);
    batch.push(create_mint_account_ix);
    batch.push(init_mint_ix);
    batch.push(create_assoc_account_ix);
    batch.push(mint_to_ix);
    batch.push(create_metadata_account_ix);
    batch.push(create_master_edition_ix);
    assert(batch_view(batch@) =~= collection_batch(
        payer@,
        mint@,
        min_rent,
        collection_item.name@,
        config_data.symbol@,
        collection_item.metadata_link@,
        args.priority_fee,
    ));
    batch
}

/// Assembles the instruction batch that creates a collection asset, or
/// returns `None` where an account of the mint cannot be derived.
pub fn try_collection_instructions(
    payer: &Address,
    mint: &Address,
    min_rent: u64,
    collection_item: &CacheItem,
    config_data: &ConfigData,
    args: &DeployArgs,
) -> (res: Option<Vec<Instruction>>)
    requires
        encode_utf8(collection_item.name@).len() <= u32::MAX,
        encode_utf8(collection_item.metadata_link@).len() <= u32::MAX,
        encode_utf8(config_data.symbol@).len() <= u32::MAX,
    ensures
        res is Some == accounts_derivable(payer@, mint@),
        res matches Some(batch) ==> batch_view(batch@) == collection_batch(
            payer@,
            mint@,
            min_rent,
            collection_item.name@,
            config_data.symbol@,
            collection_item.metadata_link@,
            args.priority_fee,
        ),
{
    if try_find_holding_address(payer, mint).is_none() {
        return None;
    }
    if try_find_metadata_pda(mint).is_none() {
        return None;
    }
    if try_find_master_edition_pda(mint).is_none() {
        return None;
    }
    Some(collection_instructions(payer, mint, min_rent, collection_item, config_data, args))
}

/// Where a provisioning run stands. A run starts `Idle`; each call of
/// `create_collection` takes it one step on.
#[derive(Clone, Copy, PartialEq, Eq)]
pub enum Provisioning {
    /// Nothing has been done yet.
    Idle,
    /// The rent-exempt balance of a mint account has been asked for.
    AwaitingRent { mint: MintKeypair },
    /// The batch has been handed out for submission.
    AwaitingSubmission { mint: MintKeypair },
    /// The batch has landed and the cache has been asked to be persisted.
    AwaitingPersist { signature: Signature, address: Address },
    /// The run is over.
    Finished,
}

/// What the driver reports to the run: that it starts, or how the action
/// that it was last asked for went. A failure comes with what the
/// transport, the ledger or the store said.
#[derive(Debug, PartialEq, Eq)]
pub enum Outcome {
    /// The run starts.
    Started,
    /// The ledger's answer to the rent query.
    RentQuoted(Result<u64, String>),
    /// The ledger's answer to the submitted batch.
    Submitted(Result<Signature, String>),
    /// Whether the cache was persisted.
    Persisted(Result<(), String>),
}

/// The mathematical view of an `Outcome`.
pub enum OutcomeView {
    Started,
    RentQuoted(Result<u64, Seq<char>>),
    Submitted(Result<Signature, Seq<char>>),
    Persisted(Result<(), Seq<char>>),
}

impl View for Outcome {
    type V = OutcomeView;

    open spec fn view(&self) -> OutcomeView {
        match self {
            Outcome::Started => OutcomeView::Started,
            Outcome::RentQuoted(Ok(lamports)) => OutcomeView::RentQuoted(Ok(*lamports)),
            Outcome::RentQuoted(Err(reason)) => OutcomeView::RentQuoted(Err(reason@)),
            Outcome::Submitted(Ok(signature)) => OutcomeView::Submitted(Ok(*signature)),
            Outcome::Submitted(Err(reason)) => OutcomeView::Submitted(Err(reason@)),
            Outcome::Persisted(Ok(())) => OutcomeView::Persisted(Ok(())),
            Outcome::Persisted(Err(reason)) => OutcomeView::Persisted(Err(reason@)),
        }
    }
}

/// What the driver has to do next.
#[derive(PartialEq, Eq)]
pub enum Action {
    /// Ask the ledger for the least balance that keeps an account of
    /// `space` bytes alive, and report it as `Outcome::RentQuoted`.
    QueryRent { space: u64 },
    /// Submit the instructions as one batch, in this order, signed by the
    /// payer and by `signer`, and report the result as `Outcome::Submitted`.
    Submit { instructions: Vec<Instruction>, signer: MintKeypair },
    /// Persist the cache, and report the result as `Outcome::Persisted`.
    Persist,
    /// Nothing more: the run ends with this result, the signature of the
    /// submission and the address of the new mint, or the error.
    Finish(Result<(Signature, Address), Error>),
}

/// The mathematical view of an `Action`.
pub enum ActionView {
    QueryRent { space: u64 },
    Submit { instructions: Seq<InstructionView>, signer: MintKeypair },
    Persist,
    Finish(Result<(Signature, Seq<u8>), ErrorView>),
}

impl View for Action {
    type V = ActionView;

    open spec fn view(&self) -> ActionView {
        match self {
            Action::QueryRent { space } => ActionView::QueryRent { space: *space },
            Action::Submit { instructions, signer } => ActionView::Submit {
                instructions: batch_view(instructions@),
                signer: *signer,
            },
            Action::Persist => ActionView::Persist,
            Action::Finish(Ok((signature, mint))) => ActionView::Finish(Ok((*signature, mint@))),
            Action::Finish(Err(error)) => ActionView::Finish(Err(error@)),
        }
    }
}

/// The end of a run with an error.
pub open spec fn fails_with(next: Provisioning, action: ActionView, error: ErrorView) -> bool {
    next == Provisioning::Finished && action == ActionView::Finish(Err(error))
}

/// The error of a cache without the collection's record.
pub open spec fn precursor_missing() -> ErrorView {
    ErrorView::PrecursorMissing { key: collection_key() }
}

/// The first step: with the collection's record in the cache the run asks
/// for the rent-exempt balance of a mint account, holding a key pair for the
/// new mint; without it the run ends at once.
pub open spec fn started(cache: CacheView, next: Provisioning, action: ActionView) -> bool {
    if cache.items.contains_key(collection_key()) {
        next is AwaitingRent && action == (ActionView::QueryRent { space: MINT_LAYOUT })
    } else {
        fails_with(next, action, precursor_missing())
    }
}

/// The step on the answer to the rent query: the batch for the mint is
/// handed out for submission, to be signed by the mint's key pair.
pub open spec fn rent_quoted(
    mint: MintKeypair,
    quote: Result<u64, Seq<char>>,
    payer: Seq<u8>,
    cache: CacheView,
    symbol: Seq<char>,
    priority_fee: u64,
    next: Provisioning,
    action: ActionView,
) -> bool {
    match quote {
        Err(reason) => fails_with(next, action, ErrorView::RemoteQueryFailed { reason }),
        Ok(min_rent) => if !cache.items.contains_key(collection_key()) {
            fails_with(next, action, precursor_missing())
        } else if !accounts_derivable(payer, mint.address_bytes()) {
            fails_with(next, action, ErrorView::NoDerivedAddress { mint: mint.address_bytes() })
        } else {
            &&& next == (Provisioning::AwaitingSubmission { mint })
            &&& action == (ActionView::Submit {
                instructions: collection_batch(
                    payer,
                    mint.address_bytes(),
                    min_rent,
                    cache.items[collection_key()].name,
                    symbol,
                    cache.items[collection_key()].metadata_link,
                    priority_fee,
                ),
                signer: mint,
            })
        },
    }
}

/// The cache after a collection mint has landed: the collection's record is
/// marked as on the ledger, and the mint's address is recorded in base 58.
pub open spec fn recorded(cache: CacheView, mint: Seq<u8>) -> CacheView {
    CacheView {
        items: cache.items.insert(
            collection_key(),
            CacheItemView {
                name: cache.items[collection_key()].name,
                metadata_link: cache.items[collection_key()].metadata_link,
                on_chain: true,
            },
        ),
        collection_mint: base58_text(mint),
    }
}

/// The step on the answer to the submission: only a batch that has landed
/// changes the cache, which is then to be persisted.
pub open spec fn submitted(
    mint: MintKeypair,
    result: Result<Signature, Seq<char>>,
    before: CacheView,
    next: Provisioning,
    action: ActionView,
    after: CacheView,
) -> bool {
    match result {
        Err(reason) => after == before && fails_with(
            next,
            action,
            ErrorView::SubmissionFailed { reason },
        ),
        Ok(signature) => if !before.items.contains_key(collection_key()) {
            after == before && fails_with(next, action, precursor_missing())
        } else {
            &&& after == recorded(before, mint.address_bytes())
            &&& next matches Provisioning::AwaitingPersist { signature: landed, address }
            &&& landed == signature
            &&& address@ == mint.address_bytes()
            &&& action == ActionView::Persist
        },
    }
}

/// The last step: the run ends with the signature and the mint's address, or
/// with what kept the cache from being persisted.
pub open spec fn persisted(
    signature: Signature,
    mint: Address,
    result: Result<(), Seq<char>>,
    next: Provisioning,
    action: ActionView,
) -> bool {
    &&& next == Provisioning::Finished
    &&& action == ActionView::Finish(
        match result {
            Ok(_) => Ok((signature, mint@)),
            Err(reason) => Err(ErrorView::PersistFailed { reason }),
        },
    )
}

/// One step of a run, as a relation between what went in and what came out:
/// the state and the reported outcome, the payer, the cache before, the
/// configured symbol and priority fee; the next state, the action and the
/// cache after.
pub open spec fn transition(
    state: Provisioning,
    outcome: OutcomeView,
    payer: Seq<u8>,
    before: CacheView,
    symbol: Seq<char>,
    priority_fee: u64,
    next: Provisioning,
    action: ActionView,
    after: CacheView,
) -> bool {
    match (state, outcome) {
        (Provisioning::Idle, OutcomeView::Started) => after == before && started(
            before,
            next,
            action,
        ),
        (Provisioning::AwaitingRent { mint }, OutcomeView::RentQuoted(quote)) => after == before
            && rent_quoted(mint, quote, payer, before, symbol, priority_fee, next, action),
        (Provisioning::AwaitingSubmission { mint }, OutcomeView::Submitted(result)) => submitted(
            mint,
            result,
            before,
            next,
            action,
            after,
        ),
        (Provisioning::AwaitingPersist { signature, address }, OutcomeView::Persisted(result)) =>
            after == before && persisted(signature, address, result, next, action),
        _ => after == before && fails_with(next, action, ErrorView::OutOfSequence),
    }
}

/// Takes a provisioning run one step on: from the state and the outcome that
/// the driver reports to the next state and the action that the driver has
/// to perform.
///
/// A run is `Idle`, `Started` first. It then asks for the rent-exempt
/// balance of a mint account, hands out the batch for a freshly generated
/// mint, records the mint in the cache once the batch has landed, asks for
/// the cache to be persisted, and finishes with the signature and the
/// mint's address. Any failure finishes the run with its error; nothing is
/// retried.
///
/// Without the collection's record in the cache the first step finishes the
/// run with `PrecursorMissing`: no action that reaches the ledger is ever
/// asked for. The cache changes in one step only, the one that is told that
/// the batch has landed.
///
/// The preconditions are limits of the instruction encoding: the texts that
/// go into the metadata record must fit a 32-bit length prefix.
pub fn create_collection(
    state: Provisioning,
    outcome: Outcome,
    payer: &Address,
    _candy_machine: &Address,
    cache: &mut Cache,
    config_data: &ConfigData,
    args: &DeployArgs,
) -> (step: (Provisioning, Action))
    requires
        encode_utf8(config_data.symbol@).len() <= u32::MAX,
        old(cache)@.items.contains_key(collection_key()) ==> encode_utf8(
            old(cache)@.items[collection_key()].name,
        ).len() <= u32::MAX,
        old(cache)@.items.contains_key(collection_key()) ==> encode_utf8(
            old(cache)@.items[collection_key()].metadata_link,
        ).len() <= u32::MAX,
    ensures
        transition(
            state,
            outcome@,
            payer@,
            old(cache)@,
            config_data.symbol@,
            args.priority_fee,
            step.0,
            step.1@,
            final(cache)@,
        ),
        !old(cache)@.items.contains_key(collection_key()) ==> step.0 == Provisioning::Finished
            && step.1@ is Finish && final(cache)@ == old(cache)@,
        state == Provisioning::Idle && outcome@ == OutcomeView::Started && !old(
            cache,
        )@.items.contains_key(collection_key()) ==> step.1@ == ActionView::Finish(
            Err(precursor_missing()),
        ),
        !(step.1@ is Persist) ==> final(cache)@ == old(cache)@,
        outcome@ matches OutcomeView::Submitted(Err(reason)) ==> final(cache)@ == old(cache)@
            && step.1@ is Finish,
{
    let key = String::from_str("-1");
    match (state, outcome) {
        (Provisioning::Idle, Outcome::Started) => {
            if cache.contains_key(&key) {
                let collection_mint = MintKeypair::generate();
                (
                    Provisioning::AwaitingRent { mint: collection_mint },
                    Action::QueryRent { space: MINT_LAYOUT },
                )
            } else {
                (Provisioning::Finished, Action::Finish(Err(Error::PrecursorMissing { key })))
            }
        },
        (Provisioning::AwaitingRent { mint: collection_mint }, Outcome::RentQuoted(quote)) => {
            let min_rent = match quote {
                Ok(lamports) => lamports,
                Err(reason) => {
                    return (
                        Provisioning::Finished,
                        Action::Finish(Err(Error::RemoteQueryFailed { reason })),
                    );
                },
            };
            let collection_item = match cache.get(&key) {
                Some(item) => item,
                None => {
                    return (
                        Provisioning::Finished,
                        Action::Finish(Err(Error::PrecursorMissing { key })),
                    );
                },
            };
            let mint = collection_mint.address();
            match try_collection_instructions(
                payer,
                &mint,
                min_rent,
                collection_item,
                config_data,
                args,
            ) {
                Some(instructions) => (
                    Provisioning::AwaitingSubmission { mint: collection_mint },
                    Action::Submit { instructions, signer: collection_mint },
                ),
                None => (
                    Provisioning::Finished,
                    Action::Finish(Err(Error::NoDerivedAddress { mint })),
                ),
            }
        },
        (
            Provisioning::AwaitingSubmission { mint: collection_mint },
            Outcome::Submitted(result),
        ) => {
            let signature = match result {
                Ok(signature) => signature,
                Err(reason) => {
                    return (
                        Provisioning::Finished,
                        Action::Finish(Err(Error::SubmissionFailed { reason })),
                    );
                },
            };
            let mint = collection_mint.address();
            if cache.set_on_chain(&key, true) {
                cache.set_collection_mint(mint.to_base58());
                assert(cache@ =~= recorded(old(cache)@, collection_mint.address_bytes()));
                (Provisioning::AwaitingPersist { signature, address: mint }, Action::Persist)
            } else {
                assert(cache@ =~= old(cache)@);
                (Provisioning::Finished, Action::Finish(Err(Error::PrecursorMissing { key })))
            }
        },
        (Provisioning::AwaitingPersist { signature, address }, Outcome::Persisted(result)) => {
            match result {
                Ok(_) => (Provisioning::Finished, Action::Finish(Ok((signature, address)))),
                Err(reason) => (
                    Provisioning::Finished,
                    Action::Finish(Err(Error::PersistFailed { reason })),
                ),
            }
        },
        _ => (Provisioning::Finished, Action::Finish(Err(Error::OutOfSequence))),
    }
}

} // verus!
