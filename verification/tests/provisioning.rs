use collection_provision::address::Address;
use collection_provision::cache::{Cache, CacheItem};
use collection_provision::config::ConfigData;
use collection_provision::deploy::collection::{
    collection_instructions, create_collection, Action, Outcome, Provisioning, MINT_LAYOUT,
};
use collection_provision::deploy::DeployArgs;
use collection_provision::error::Error;
use collection_provision::signer::{MintKeypair, Signature};
use solana_sdk::signer::keypair::Keypair;
use solana_sdk::signer::Signer;

fn sample(seed: u8) -> Address {
    let mut bytes = [0u8; 32];
    for (i, b) in bytes.iter_mut().enumerate() {
        *b = (i as u8).wrapping_mul(31).wrapping_add(seed);
    }
    Address::new(bytes)
}

fn k(key: &str) -> String {
    key.to_string()
}

fn config() -> ConfigData {
    ConfigData { symbol: k("MC") }
}

fn args() -> DeployArgs {
    DeployArgs { priority_fee: 1000 }
}

fn collection_cache() -> Cache {
    let mut cache = Cache::new();
    cache.insert(k("-1"), CacheItem::new(k("My Collection"), k("ipfs://abc")));
    cache.insert(k("0"), CacheItem::new(k("First"), k("ipfs://0")));
    cache
}

fn snapshot(cache: &Cache) -> (Vec<(String, CacheItem)>, String) {
    let items = cache
        .keys()
        .into_iter()
        .map(|key| {
            let item = cache.get(&key).unwrap().clone();
            (key, item)
        })
        .collect();
    (items, cache.collection_mint().clone())
}

/// A transport that counts what reaches it and answers as it was told to.
struct MockTransport {
    rent: Result<u64, String>,
    submission: Result<Signature, String>,
    persist: Result<(), String>,
    network_calls: usize,
    persist_calls: usize,
    submitted: Option<(Vec<collection_provision::instruction::Instruction>, MintKeypair)>,
    queried_space: Option<u64>,
}

impl MockTransport {
    fn new() -> Self {
        MockTransport {
            rent: Ok(1_461_600),
            submission: Ok(Signature { bytes: [7u8; 64] }),
            persist: Ok(()),
            network_calls: 0,
            persist_calls: 0,
            submitted: None,
            queried_space: None,
        }
    }
}

fn run(
    transport: &mut MockTransport,
    payer: &Address,
    cache: &mut Cache,
) -> Result<(Signature, Address), Error> {
    let candy_machine = sample(200);
    let mut state = Provisioning::Idle;
    let mut outcome = Outcome::Started;
    loop {
        let (next, action) =
            create_collection(state, outcome, payer, &candy_machine, cache, &config(), &args());
        state = next;
        outcome = match action {
            Action::QueryRent { space } => {
                transport.network_calls += 1;
                transport.queried_space = Some(space);
                Outcome::RentQuoted(transport.rent.clone())
            }
            Action::Submit { instructions, signer } => {
                transport.network_calls += 1;
                transport.submitted = Some((instructions, signer));
                Outcome::Submitted(transport.submission.clone())
            }
            Action::Persist => {
                transport.persist_calls += 1;
                Outcome::Persisted(transport.persist.clone())
            }
            Action::Finish(result) => {
                assert!(state == Provisioning::Finished);
                return result;
            }
        };
    }
}

#[test]
fn end_to_end_scenario() {
    let payer = sample(1);
    let mut cache = collection_cache();
    let mut transport = MockTransport::new();
    let (signature, mint) = run(&mut transport, &payer, &mut cache).unwrap();
    assert_eq!(signature, Signature { bytes: [7u8; 64] });
    assert_eq!(mint.bytes.len(), 32);
    let item = cache.get(&k("-1")).unwrap();
    assert!(item.on_chain);
    assert_eq!(item.name, "My Collection");
    assert_eq!(item.metadata_link, "ipfs://abc");
    assert_eq!(cache.collection_mint(), &mint.to_base58());
    assert_eq!(
        cache.collection_mint(),
        &solana_sdk::pubkey::Pubkey::new_from_array(mint.bytes).to_string()
    );
    assert_eq!(cache.get(&k("0")), Some(&CacheItem::new(k("First"), k("ipfs://0"))));
    assert_eq!(transport.network_calls, 2);
    assert_eq!(transport.persist_calls, 1);
    assert_eq!(transport.queried_space, Some(82));
}

#[test]
fn submitted_batch_is_the_collection_batch_signed_by_the_mint() {
    let payer = sample(1);
    let mut cache = collection_cache();
    let mut transport = MockTransport::new();
    let (_, mint) = run(&mut transport, &payer, &mut cache).unwrap();
    let (instructions, signer) = transport.submitted.unwrap();
    assert_eq!(signer.address(), mint);
    let item = CacheItem::new(k("My Collection"), k("ipfs://abc"));
    assert_eq!(
        instructions,
        collection_instructions(&payer, &mint, 1_461_600, &item, &config(), &args())
    );
    assert_eq!(instructions.len(), 7);
    assert_eq!(instructions[1].accounts[1].address, mint);
    assert!(instructions[1].accounts[1].is_signer);
    let keypair = Keypair::from_bytes(&signer.bytes).unwrap();
    assert_eq!(keypair.pubkey().to_bytes(), mint.bytes);
}

#[test]
fn precursor_gate_makes_no_network_call() {
    let payer = sample(1);
    let mut cache = Cache::new();
    cache.insert(k("0"), CacheItem::new(k("First"), k("ipfs://0")));
    let before = snapshot(&cache);
    let mut transport = MockTransport::new();
    let error = run(&mut transport, &payer, &mut cache).unwrap_err();
    assert_eq!(error, Error::PrecursorMissing { key: k("-1") });
    assert!(error.message().ends_with("Missing key: -1"));
    assert!(error.message().starts_with(
        "Trying to create and set collection when collection item info isn't in cache!"
    ));
    assert_eq!(transport.network_calls, 0);
    assert_eq!(transport.persist_calls, 0);
    assert_eq!(snapshot(&cache), before);
}

#[test]
fn precursor_gate_on_an_empty_cache() {
    let mut cache = Cache::new();
    let (next, action) = create_collection(
        Provisioning::Idle,
        Outcome::Started,
        &sample(1),
        &sample(2),
        &mut cache,
        &config(),
        &args(),
    );
    assert!(next == Provisioning::Finished);
    assert!(action == Action::Finish(Err(Error::PrecursorMissing { key: k("-1") })));
    assert_eq!(cache.len(), 0);
}

#[test]
fn failed_submission_leaves_the_cache_as_it_was() {
    let payer = sample(1);
    let mut cache = collection_cache();
    cache.set_collection_mint(k("earlier"));
    let before = snapshot(&cache);
    let mut transport = MockTransport::new();
    transport.submission = Err(k("custom program error: 0x1"));
    let error = run(&mut transport, &payer, &mut cache).unwrap_err();
    assert_eq!(error, Error::SubmissionFailed { reason: k("custom program error: 0x1") });
    assert_eq!(error.message(), "custom program error: 0x1");
    assert_eq!(snapshot(&cache), before);
    assert!(!cache.get(&k("-1")).unwrap().on_chain);
    assert_eq!(cache.collection_mint(), "earlier");
    assert_eq!(transport.network_calls, 2);
    assert_eq!(transport.persist_calls, 0);
}

#[test]
fn failed_rent_query_ends_the_run_before_submission() {
    let payer = sample(1);
    let mut cache = collection_cache();
    let before = snapshot(&cache);
    let mut transport = MockTransport::new();
    transport.rent = Err(k("connection refused"));
    let error = run(&mut transport, &payer, &mut cache).unwrap_err();
    assert_eq!(error, Error::RemoteQueryFailed { reason: k("connection refused") });
    assert_eq!(error.message(), "connection refused");
    assert_eq!(transport.network_calls, 1);
    assert!(transport.submitted.is_none());
    assert_eq!(snapshot(&cache), before);
}

#[test]
fn failed_persist_is_reported_after_the_cache_was_updated() {
    let payer = sample(1);
    let mut cache = collection_cache();
    let mut transport = MockTransport::new();
    transport.persist = Err(k("disk full"));
    let error = run(&mut transport, &payer, &mut cache).unwrap_err();
    assert_eq!(error, Error::PersistFailed { reason: k("disk full") });
    assert_eq!(error.message(), "disk full");
    assert!(cache.get(&k("-1")).unwrap().on_chain);
    assert_eq!(transport.persist_calls, 1);
}

#[test]
fn first_step_asks_for_the_rent_of_a_mint_account() {
    let mut cache = collection_cache();
    let before = snapshot(&cache);
    let (next, action) = create_collection(
        Provisioning::Idle,
        Outcome::Started,
        &sample(1),
        &sample(2),
        &mut cache,
        &config(),
        &args(),
    );
    assert!(matches!(next, Provisioning::AwaitingRent { .. }));
    assert!(action == Action::QueryRent { space: MINT_LAYOUT });
    assert_eq!(snapshot(&cache), before);
}

#[test]
fn each_run_gets_a_mint_of_its_own() {
    let payer = sample(1);
    let mut first = collection_cache();
    let mut second = collection_cache();
    let (_, a) = run(&mut MockTransport::new(), &payer, &mut first).unwrap();
    let (_, b) = run(&mut MockTransport::new(), &payer, &mut second).unwrap();
    assert_ne!(a, b);
    assert_ne!(first.collection_mint(), second.collection_mint());
}

#[test]
fn cache_changes_only_when_the_batch_has_landed() {
    let payer = sample(1);
    let mint = MintKeypair::generate();
    let mut cache = collection_cache();
    let before = snapshot(&cache);
    let (next, action) = create_collection(
        Provisioning::AwaitingRent { mint },
        Outcome::RentQuoted(Ok(5)),
        &payer,
        &sample(2),
        &mut cache,
        &config(),
        &args(),
    );
    assert!(next == Provisioning::AwaitingSubmission { mint });
    assert!(matches!(action, Action::Submit { .. }));
    assert_eq!(snapshot(&cache), before);
    let signature = Signature { bytes: [9u8; 64] };
    let (next, action) = create_collection(
        next,
        Outcome::Submitted(Ok(signature)),
        &payer,
        &sample(2),
        &mut cache,
        &config(),
        &args(),
    );
    assert!(next == Provisioning::AwaitingPersist { signature, address: mint.address() });
    assert!(action == Action::Persist);
    assert_ne!(snapshot(&cache), before);
    let after = snapshot(&cache);
    let (next, action) = create_collection(
        next,
        Outcome::Persisted(Ok(())),
        &payer,
        &sample(2),
        &mut cache,
        &config(),
        &args(),
    );
    assert!(next == Provisioning::Finished);
    assert!(action == Action::Finish(Ok((signature, mint.address()))));
    assert_eq!(snapshot(&cache), after);
}

#[test]
fn record_removed_during_the_run_is_a_missing_precursor() {
    let payer = sample(1);
    let mint = MintKeypair::generate();
    let mut cache = Cache::new();
    let (next, action) = create_collection(
        Provisioning::AwaitingRent { mint },
        Outcome::RentQuoted(Ok(5)),
        &payer,
        &sample(2),
        &mut cache,
        &config(),
        &args(),
    );
    assert!(next == Provisioning::Finished);
    assert!(action == Action::Finish(Err(Error::PrecursorMissing { key: k("-1") })));
    let (next, action) = create_collection(
        Provisioning::AwaitingSubmission { mint },
        Outcome::Submitted(Ok(Signature { bytes: [1u8; 64] })),
        &payer,
        &sample(2),
        &mut cache,
        &config(),
        &args(),
    );
    assert!(next == Provisioning::Finished);
    assert!(action == Action::Finish(Err(Error::PrecursorMissing { key: k("-1") })));
    assert_eq!(cache.len(), 0);
    assert_eq!(cache.collection_mint(), "");
}

#[test]
fn outcome_out_of_sequence_ends_the_run() {
    let payer = sample(1);
    let mint = MintKeypair::generate();
    let signature = Signature { bytes: [3u8; 64] };
    let states = [
        Provisioning::Idle,
        Provisioning::AwaitingRent { mint },
        Provisioning::AwaitingSubmission { mint },
        Provisioning::AwaitingPersist { signature, address: mint.address() },
        Provisioning::Finished,
    ];
    for (i, state) in states.iter().enumerate() {
        for j in 0..4usize {
            if i == j {
                continue;
            }
            let outcome = match j {
                0 => Outcome::Started,
                1 => Outcome::RentQuoted(Ok(1)),
                2 => Outcome::Submitted(Ok(signature)),
                _ => Outcome::Persisted(Ok(())),
            };
            let mut cache = collection_cache();
            let before = snapshot(&cache);
            let (next, action) = create_collection(
                *state,
                outcome,
                &payer,
                &sample(2),
                &mut cache,
                &config(),
                &args(),
            );
            assert!(next == Provisioning::Finished);
            assert!(action == Action::Finish(Err(Error::OutOfSequence)));
            assert_eq!(snapshot(&cache), before);
        }
    }
    assert_eq!(Error::OutOfSequence.message(), "Outcome reported out of sequence");
}

#[test]
fn generated_pair_is_a_ledger_key_pair() {
    let pair = MintKeypair::generate();
    let keypair = Keypair::from_bytes(&pair.bytes).unwrap();
    assert_eq!(keypair.pubkey().to_bytes(), pair.address().bytes);
    let from_secret = solana_sdk::signer::keypair::keypair_from_seed(&pair.bytes[..32]).unwrap();
    assert_eq!(from_secret.pubkey().to_bytes(), pair.address().bytes);
    assert_eq!(from_secret.to_bytes(), pair.bytes);
    assert_eq!(pair.address().bytes[..], pair.bytes[32..]);
    assert!(MintKeypair::generate() != pair);
}

#[test]
fn address_of_a_pair_is_its_public_half() {
    let mut bytes = [0u8; 64];
    for (i, b) in bytes.iter_mut().enumerate() {
        *b = i as u8;
    }
    let pair = MintKeypair { bytes };
    let mut public = [0u8; 32];
    for (i, b) in public.iter_mut().enumerate() {
        *b = 32 + i as u8;
    }
    assert_eq!(pair.address(), Address::new(public));
}

#[test]
fn no_derived_address_message_names_the_mint() {
    let mint = sample(9);
    let error = Error::NoDerivedAddress { mint };
    assert_eq!(
        error.message(),
        format!("No address can be derived for the accounts of mint: {}", mint.to_base58())
    );
}
