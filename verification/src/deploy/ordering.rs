//! Why the batch that creates a collection asset has the order it has.
//!
//! Each stage of the batch refers to accounts that an earlier stage creates.
//! On a ledger that lets an instruction refer only to what exists, an
//! arrangement of the stages runs exactly if every stage stands behind the
//! stages it depends on. The order in which the batch is assembled is such
//! an arrangement.

use vstd::prelude::*;
use vstd::bytes::{lemma_auto_spec_u32_to_from_le_bytes, spec_u32_to_le_bytes};
use crate::address::{
    associated_token_program_bytes, compute_budget_program_bytes, rent_sysvar_bytes,
    system_program_bytes, token_metadata_program_bytes, token_program_bytes,
};
use crate::deploy::collection::collection_batch;
use crate::instruction::InstructionView;
use crate::ledger::{
    created_within, creates, lemma_existence_suffices, lemma_replay_needs_existence, refers_to,
    replay,
};
use crate::pdas::{holding_address, master_edition_address, metadata_address};

verus! {

/// The stages of the batch, in the order in which it is assembled.
#[derive(Clone, Copy, Debug, PartialEq, Eq, Structural)]
pub enum Stage {
    SetPriorityFee,
    AllocateMint,
    InitializeMint,
    CreateHoldingAccount,
    MintOne,
    CreateMetadata,
    CreateMasterEdition,
}

impl Stage {
    /// The place of the stage in the assembled batch.
    pub open spec fn index(self) -> int {
        match self {
            Stage::SetPriorityFee => 0,
            Stage::AllocateMint => 1,
            Stage::InitializeMint => 2,
            Stage::CreateHoldingAccount => 3,
            Stage::MintOne => 4,
            Stage::CreateMetadata => 5,
            Stage::CreateMasterEdition => 6,
        }
    }

    /// Whether the stage refers to an account that `earlier` creates: the
    /// mint must be allocated before anything else is done with it, the
    /// holding account must exist before a unit is minted into it, and the
    /// metadata record must exist before the master edition.
    pub open spec fn depends_on(self, earlier: Stage) -> bool {
        match self {
            Stage::SetPriorityFee => false,
            Stage::AllocateMint => false,
            Stage::InitializeMint => earlier == Stage::AllocateMint,
            Stage::CreateHoldingAccount => earlier == Stage::AllocateMint,
            Stage::MintOne => earlier == Stage::AllocateMint || earlier
                == Stage::CreateHoldingAccount,
            Stage::CreateMetadata => earlier == Stage::AllocateMint,
            Stage::CreateMasterEdition => earlier == Stage::AllocateMint || earlier
                == Stage::CreateMetadata,
        }
    }
}

/// The order in which the batch is assembled.
pub open spec fn assembled_order() -> Seq<Stage> {
    seq![
        Stage::SetPriorityFee,
        Stage::AllocateMint,
        Stage::InitializeMint,
        Stage::CreateHoldingAccount,
        Stage::MintOne,
        Stage::CreateMetadata,
        Stage::CreateMasterEdition,
    ]
}

/// What a batch is assembled from.
pub struct BatchInputs {
    pub payer: Seq<u8>,
    pub mint: Seq<u8>,
    pub min_rent: u64,
    pub name: Seq<char>,
    pub symbol: Seq<char>,
    pub uri: Seq<char>,
    pub priority_fee: u64,
}

impl BatchInputs {
    /// The batch as it is assembled.
    pub open spec fn batch(self) -> Seq<InstructionView> {
        collection_batch(
            self.payer,
            self.mint,
            self.min_rent,
            self.name,
            self.symbol,
            self.uri,
            self.priority_fee,
        )
    }

    /// The instruction of a stage.
    pub open spec fn instruction(self, stage: Stage) -> InstructionView {
        self.batch()[stage.index()]
    }

    /// The instructions of the stages in the given arrangement.
    pub open spec fn arranged(self, order: Seq<Stage>) -> Seq<InstructionView> {
        Seq::new(order.len(), |k: int| self.instruction(order[k]))
    }

    /// The account that a stage creates.
    pub open spec fn product(self, stage: Stage) -> Option<Seq<u8>> {
        match stage {
            Stage::AllocateMint => Some(self.mint),
            Stage::CreateHoldingAccount => Some(holding_address(self.payer, self.mint).unwrap().0),
            Stage::CreateMetadata => Some(metadata_address(self.mint).unwrap().0),
            Stage::CreateMasterEdition => Some(master_edition_address(self.mint).unwrap().0),
            _ => None,
        }
    }

    /// Whether the accounts that the batch creates are new: the mint, the
    /// holding account and the metadata account are not on the ledger yet,
    /// and no two of the four created accounts are the same.
    pub open spec fn accounts_are_new(self, ledger: Set<Seq<u8>>) -> bool {
        let holding = holding_address(self.payer, self.mint).unwrap().0;
        let metadata = metadata_address(self.mint).unwrap().0;
        let edition = master_edition_address(self.mint).unwrap().0;
        &&& !ledger.contains(self.mint)
        &&& !ledger.contains(holding)
        &&& !ledger.contains(metadata)
        &&& self.mint != holding
        &&& self.mint != metadata
        &&& self.mint != edition
        &&& holding != metadata
        &&& holding != edition
        &&& metadata != edition
    }
}

/// Whether the ledger holds what the batch takes for granted: the payer,
/// the five programs and the rent system variable.
pub open spec fn has_fixtures(ledger: Set<Seq<u8>>, payer: Seq<u8>) -> bool {
    &&& ledger.contains(payer)
    &&& ledger.contains(system_program_bytes())
    &&& ledger.contains(token_program_bytes())
    &&& ledger.contains(associated_token_program_bytes())
    &&& ledger.contains(token_metadata_program_bytes())
    &&& ledger.contains(compute_budget_program_bytes())
    &&& ledger.contains(rent_sysvar_bytes())
}

/// Whether every stage of an arrangement stands behind the stages it
/// depends on.
pub open spec fn respects_dependencies(order: Seq<Stage>) -> bool {
    forall|at: int, needed: Stage|
        0 <= at < order.len() && #[trigger] order[at].depends_on(needed) ==> exists|k: int|
            0 <= k < at && #[trigger] order[k] == needed
}

/// The five programs are five different addresses.
proof fn lemma_programs_differ()
    ensures
        system_program_bytes() != token_program_bytes(),
        system_program_bytes() != associated_token_program_bytes(),
        system_program_bytes() != token_metadata_program_bytes(),
        system_program_bytes() != compute_budget_program_bytes(),
        token_program_bytes() != associated_token_program_bytes(),
        token_program_bytes() != token_metadata_program_bytes(),
        token_program_bytes() != compute_budget_program_bytes(),
        associated_token_program_bytes() != token_metadata_program_bytes(),
        associated_token_program_bytes() != compute_budget_program_bytes(),
        token_metadata_program_bytes() != compute_budget_program_bytes(),
{
    assert(system_program_bytes()[0] == 0);
    assert(token_program_bytes()[0] == 6);
    assert(associated_token_program_bytes()[0] == 140);
    assert(token_metadata_program_bytes()[0] == 11);
    assert(compute_budget_program_bytes()[0] == 3);
}

/// What each stage's instruction creates: its product and nothing else.
proof fn lemma_stage_creates(inputs: BatchInputs, stage: Stage)
    ensures
        creates(inputs.instruction(stage)) == match inputs.product(stage) {
            Some(account) => set![account],
            None => Set::empty(),
        },
{
    lemma_programs_differ();
    lemma_auto_spec_u32_to_from_le_bytes();
    let ix = inputs.instruction(stage);
    match stage {
        Stage::AllocateMint => {
            assert(spec_u32_to_le_bytes(0).len() == 4);
            assert(ix.data.subrange(0, 4) =~= spec_u32_to_le_bytes(0));
        },
        Stage::CreateHoldingAccount => {},
        Stage::CreateMetadata => {
            assert(ix.data[0] == 33);
        },
        Stage::CreateMasterEdition => {
            assert(ix.data[0] == 17);
        },
        _ => {},
    }
}

/// What each stage's instruction refers to: what the batch takes for
/// granted, its own product, and the products of the stages it depends on.
proof fn lemma_stage_refers(inputs: BatchInputs, stage: Stage, address: Seq<u8>)
    requires
        refers_to(inputs.instruction(stage), address),
    ensures
        ({
            ||| address == inputs.payer
            ||| address == system_program_bytes()
            ||| address == token_program_bytes()
            ||| address == associated_token_program_bytes()
            ||| address == token_metadata_program_bytes()
            ||| address == compute_budget_program_bytes()
            ||| address == rent_sysvar_bytes()
            ||| inputs.product(stage) == Some(address)
            ||| exists|needed: Stage| #[trigger]
                stage.depends_on(needed) && inputs.product(needed) == Some(address)
        }),
{
    let ix = inputs.instruction(stage);
    if ix.program_id != address {
        let i = choose|i: int|
            0 <= i < ix.accounts.len() && #[trigger] ix.accounts[i].address == address;
        match stage {
            Stage::SetPriorityFee => {},
            Stage::AllocateMint => {},
            Stage::InitializeMint => {
                assert(stage.depends_on(Stage::AllocateMint));
            },
            Stage::CreateHoldingAccount => {
                assert(stage.depends_on(Stage::AllocateMint));
            },
            Stage::MintOne => {
                assert(stage.depends_on(Stage::AllocateMint));
                assert(stage.depends_on(Stage::CreateHoldingAccount));
            },
            Stage::CreateMetadata => {
                assert(stage.depends_on(Stage::AllocateMint));
            },
            Stage::CreateMasterEdition => {
                assert(stage.depends_on(Stage::AllocateMint));
                assert(stage.depends_on(Stage::CreateMetadata));
            },
        }
    }
}

/// A stage refers to the product of each stage it depends on.
proof fn lemma_dependency_is_a_reference(inputs: BatchInputs, stage: Stage, needed: Stage)
    requires
        stage.depends_on(needed),
    ensures
        inputs.product(needed) is Some,
        refers_to(inputs.instruction(stage), inputs.product(needed).unwrap()),
{
    let ix = inputs.instruction(stage);
    match stage {
        Stage::InitializeMint => {
            assert(ix.accounts[0].address == inputs.mint);
        },
        Stage::CreateHoldingAccount => {
            assert(ix.accounts[3].address == inputs.mint);
        },
        Stage::MintOne => {
            assert(ix.accounts[0].address == inputs.mint);
            assert(ix.accounts[1].address == holding_address(inputs.payer, inputs.mint).unwrap().0);
        },
        Stage::CreateMetadata => {
            assert(ix.accounts[1].address == inputs.mint);
        },
        Stage::CreateMasterEdition => {
            assert(ix.accounts[1].address == inputs.mint);
            assert(ix.accounts[5].address == metadata_address(inputs.mint).unwrap().0);
        },
        _ => {},
    }
}

/// On a ledger that holds what the batch takes for granted, an arrangement
/// in which every stage stands behind the stages it depends on runs.
pub proof fn lemma_respecting_order_is_accepted(
    ledger: Set<Seq<u8>>,
    inputs: BatchInputs,
    order: Seq<Stage>,
)
    requires
        has_fixtures(ledger, inputs.payer),
        respects_dependencies(order),
    ensures
        replay(ledger, inputs.arranged(order)) is Some,
{
    let batch = inputs.arranged(order);
    assert forall|at: int, address: Seq<u8>|
        0 <= at < batch.len() && #[trigger] refers_to(batch[at], address) implies ledger.contains(
        address,
    ) || created_within(batch, at + 1, address) by {
        let stage = order[at];
        lemma_stage_refers(inputs, stage, address);
        lemma_stage_creates(inputs, stage);
        if inputs.product(stage) == Some(address) {
            assert(creates(batch[at]).contains(address));
        } else if !ledger.contains(address) {
            let needed = choose|needed: Stage| #[trigger]
                stage.depends_on(needed) && inputs.product(needed) == Some(address);
            let k = choose|k: int| 0 <= k < at && #[trigger] order[k] == needed;
            lemma_stage_creates(inputs, needed);
            assert(creates(batch[k]).contains(address));
        }
    }
    lemma_existence_suffices(ledger, batch);
}

/// The order in which the batch is assembled respects every dependency, so
/// the assembled batch runs on a ledger that holds what it takes for
/// granted.
pub proof fn lemma_assembled_order_is_accepted(ledger: Set<Seq<u8>>, inputs: BatchInputs)
    requires
        has_fixtures(ledger, inputs.payer),
    ensures
        respects_dependencies(assembled_order()),
        inputs.arranged(assembled_order()) == inputs.batch(),
        replay(ledger, inputs.batch()) is Some,
{
    let order = assembled_order();
    assert forall|at: int, needed: Stage|
        0 <= at < order.len() && #[trigger] order[at].depends_on(needed) implies exists|k: int|
        0 <= k < at && #[trigger] order[k] == needed by {
        if needed == Stage::AllocateMint {
            assert(order[1] == needed);
        } else if needed == Stage::CreateHoldingAccount {
            assert(order[3] == needed);
        } else {
            assert(order[5] == needed);
        }
    }
    assert(inputs.arranged(order) =~= inputs.batch());
    lemma_respecting_order_is_accepted(ledger, inputs, order);
}

/// The ledger rejects an arrangement in which a stage does not stand behind
/// a stage it depends on, when the accounts that the batch creates are new.
pub proof fn lemma_missing_dependency_is_rejected(
    ledger: Set<Seq<u8>>,
    inputs: BatchInputs,
    order: Seq<Stage>,
    at: int,
    needed: Stage,
)
    requires
        inputs.accounts_are_new(ledger),
        0 <= at < order.len(),
        order[at].depends_on(needed),
        forall|k: int| 0 <= k < at ==> order[k] != needed,
    ensures
        replay(ledger, inputs.arranged(order)) is None,
{
    let batch = inputs.arranged(order);
    lemma_dependency_is_a_reference(inputs, order[at], needed);
    let account = inputs.product(needed).unwrap();
    if replay(ledger, batch) is Some {
        lemma_replay_needs_existence(ledger, batch, at, account);
        let j = choose|j: int|
            0 <= j < at + 1 && j < batch.len() && #[trigger] creates(batch[j]).contains(account);
        lemma_stage_creates(inputs, order[j]);
        assert(inputs.product(order[j]) == Some(account));
        assert(order[j] == needed);
        assert(j == at);
        assert(!needed.depends_on(needed));
    }
}

/// The ledger rejects a rearrangement of the stages, each taken once, in
/// which a stage stands before a stage it depends on, when the accounts that
/// the batch creates are new.
pub proof fn lemma_out_of_order_is_rejected(
    ledger: Set<Seq<u8>>,
    inputs: BatchInputs,
    order: Seq<Stage>,
    early: int,
    late: int,
)
    requires
        inputs.accounts_are_new(ledger),
        order.no_duplicates(),
        0 <= early < late < order.len(),
        order[early].depends_on(order[late]),
    ensures
        replay(ledger, inputs.arranged(order)) is None,
{
    lemma_missing_dependency_is_rejected(ledger, inputs, order, early, order[late]);
}

/// An arrangement of the stages, each taken once, runs exactly if every
/// stage stands behind the stages it depends on, on a ledger that holds
/// what the batch takes for granted and for which the created accounts are
/// new.
pub proof fn lemma_accepted_iff_dependencies_respected(
    ledger: Set<Seq<u8>>,
    inputs: BatchInputs,
    order: Seq<Stage>,
)
    requires
        has_fixtures(ledger, inputs.payer),
        inputs.accounts_are_new(ledger),
    ensures
        replay(ledger, inputs.arranged(order)) is Some <==> respects_dependencies(order),
{
    if respects_dependencies(order) {
        lemma_respecting_order_is_accepted(ledger, inputs, order);
    } else {
        let (at, needed) = choose|at: int, needed: Stage|
            0 <= at < order.len() && #[trigger] order[at].depends_on(needed) && !exists|k: int|
                0 <= k < at && #[trigger] order[k] == needed;
        lemma_missing_dependency_is_rejected(ledger, inputs, order, at, needed);
    }
}

} // verus!
