//! A model of the ledger's first rule, that an account must exist before an
//! instruction refers to it, and what the rule says of the batch that
//! creates a collection asset.
//!
//! The model knows accounts by their addresses only. An instruction runs if
//! its program and every account it refers to exist or are created by the
//! instruction itself; a batch runs if its instructions run one after the
//! other, each on the ledger that the ones before it left.

use vstd::prelude::*;
use vstd::bytes::spec_u32_to_le_bytes;
use crate::address::{
    associated_token_program_bytes, system_program_bytes, token_metadata_program_bytes,
};
use crate::instruction::InstructionView;

verus! {

/// The accounts that an instruction brings into existence: the system
/// program's account creation and the creation of a holding account create
/// their second account; the creation of a metadata record and of a
/// master-edition record create their first. Other instructions create
/// nothing.
pub open spec fn creates(ix: InstructionView) -> Set<Seq<u8>> {
    if ix.program_id == system_program_bytes() && ix.accounts.len() >= 2 && ix.data.len() >= 4
        && ix.data.subrange(0, 4) == spec_u32_to_le_bytes(0) {
        set![ix.accounts[1].address]
    } else if ix.program_id == associated_token_program_bytes() && ix.accounts.len() >= 2
        && ix.data == seq![0u8] {
        set![ix.accounts[1].address]
    } else if ix.program_id == token_metadata_program_bytes() && ix.accounts.len() >= 1
        && ix.data.len() >= 1 && (ix.data[0] == 33 || ix.data[0] == 17) {
        set![ix.accounts[0].address]
    } else {
        Set::empty()
    }
}

/// Whether an instruction refers to an address: as its program or as one of
/// its accounts.
pub open spec fn refers_to(ix: InstructionView, address: Seq<u8>) -> bool {
    ix.program_id == address || exists|i: int|
        0 <= i < ix.accounts.len() && #[trigger] ix.accounts[i].address == address
}

/// Whether the ledger runs an instruction: everything it refers to exists
/// or is created by it.
pub open spec fn runs(ledger: Set<Seq<u8>>, ix: InstructionView) -> bool {
    forall|address: Seq<u8>| #[trigger]
        refers_to(ix, address) ==> ledger.contains(address) || creates(ix).contains(address)
}

/// Runs a batch on a ledger. The result is the ledger after the batch, or
/// `None` where an instruction refers to what does not exist when its turn
/// comes.
pub open spec fn replay(ledger: Set<Seq<u8>>, batch: Seq<InstructionView>) -> Option<
    Set<Seq<u8>>,
>
    decreases batch.len(),
{
    if batch.len() == 0 {
        Some(ledger)
    } else if runs(ledger, batch[0]) {
        replay(ledger.union(creates(batch[0])), batch.drop_first())
    } else {
        None
    }
}

/// Whether one of the first `count` instructions of a batch creates the
/// address.
pub open spec fn created_within(batch: Seq<InstructionView>, count: int, address: Seq<u8>) -> bool {
    exists|j: int| 0 <= j < count && j < batch.len() && #[trigger] creates(batch[j]).contains(address)
}

/// A batch runs only if each instruction refers only to what was on the
/// ledger at the start or has been created by then, by an instruction before
/// it or by itself.
pub proof fn lemma_replay_needs_existence(
    ledger: Set<Seq<u8>>,
    batch: Seq<InstructionView>,
    at: int,
    address: Seq<u8>,
)
    requires
        replay(ledger, batch) is Some,
        0 <= at < batch.len(),
        refers_to(batch[at], address),
    ensures
        ledger.contains(address) || created_within(batch, at + 1, address),
    decreases batch.len(),
{
    let rest = batch.drop_first();
    if at == 0 {
        assert(runs(ledger, batch[0]));
        if creates(batch[0]).contains(address) {
            assert(created_within(batch, 1, address));
        }
    } else {
        let grown = ledger.union(creates(batch[0]));
        assert(rest[at - 1] == batch[at]);
        lemma_replay_needs_existence(grown, rest, at - 1, address);
        if grown.contains(address) {
            if !ledger.contains(address) {
                assert(creates(batch[0]).contains(address));
                assert(created_within(batch, at + 1, address));
            }
        } else {
            let j = choose|j: int|
                0 <= j < at && j < rest.len() && #[trigger] creates(rest[j]).contains(address);
            assert(rest[j] == batch[j + 1]);
            assert(creates(batch[j + 1]).contains(address));
            assert(created_within(batch, at + 1, address));
        }
    }
}

/// A batch runs if each instruction refers only to what was on the ledger
/// at the start or has been created by then.
pub proof fn lemma_existence_suffices(ledger: Set<Seq<u8>>, batch: Seq<InstructionView>)
    requires
        forall|at: int, address: Seq<u8>|
            0 <= at < batch.len() && #[trigger] refers_to(batch[at], address) ==> ledger.contains(
                address,
            ) || created_within(batch, at + 1, address),
    ensures
        replay(ledger, batch) is Some,
    decreases batch.len(),
{
    if batch.len() > 0 {
        let rest = batch.drop_first();
        let grown = ledger.union(creates(batch[0]));
        assert forall|address: Seq<u8>| #[trigger] refers_to(batch[0], address) implies
            ledger.contains(address) || creates(batch[0]).contains(address) by {
            if !ledger.contains(address) {
                assert(created_within(batch, 1, address));
            }
        }
        assert forall|at: int, address: Seq<u8>|
            0 <= at < rest.len() && #[trigger] refers_to(rest[at], address) implies grown.contains(
            address,
        ) || created_within(rest, at + 1, address) by {
            assert(rest[at] == batch[at + 1]);
            assert(refers_to(batch[at + 1], address));
            if !ledger.contains(address) {
                assert(created_within(batch, at + 2, address));
                let j = choose|j: int|
                    0 <= j < at + 2 && j < batch.len() && #[trigger] creates(batch[j]).contains(
                        address,
                    );
                if j > 0 {
                    assert(rest[j - 1] == batch[j]);
                    assert(creates(rest[j - 1]).contains(address));
                }
            }
        }
        lemma_existence_suffices(grown, rest);
    }
}

} // verus!
