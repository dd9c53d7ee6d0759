//! What can go wrong, and what the caller is told.

use vstd::prelude::*;
use vstd::string::*;
use crate::address::{base58_text, Address};

verus! {

/// The two kinds of account that are looked up by a derived address.
#[derive(Clone, Copy, Debug, PartialEq, Eq, Structural)]
pub enum AccountKind {
    Metadata,
    MasterEdition,
}

/// An error of this crate. None is retried or swallowed here: each is handed
/// to the caller, with the key or address it is about.
#[derive(Clone, Debug, PartialEq, Eq)]
pub enum Error {
    /// The cache holds no record under a key that the operation needs.
    PrecursorMissing { key: String },
    /// A query to the ledger failed; `reason` is what the transport said.
    RemoteQueryFailed { reason: String },
    /// No account was found at a derived address.
    AccountNotFound { kind: AccountKind, address: Address },
    /// The account at a derived address does not hold what it should.
    DeserializeFailed { kind: AccountKind, address: Address },
    /// The ledger or the transport refused the instruction batch; `reason`
    /// is what it said.
    SubmissionFailed { reason: String },
    /// The cache could not be persisted; `reason` is what the store said.
    PersistFailed { reason: String },
    /// No bump seed yields an address for the accounts of this mint.
    NoDerivedAddress { mint: Address },
    /// An outcome was reported that the run was not waiting for.
    OutOfSequence,
}

/// The mathematical view of an `Error`.
pub enum ErrorView {
    PrecursorMissing { key: Seq<char> },
    RemoteQueryFailed { reason: Seq<char> },
    AccountNotFound { kind: AccountKind, address: Seq<u8> },
    DeserializeFailed { kind: AccountKind, address: Seq<u8> },
    SubmissionFailed { reason: Seq<char> },
    PersistFailed { reason: Seq<char> },
    NoDerivedAddress { mint: Seq<u8> },
    OutOfSequence,
}

impl View for Error {
    type V = ErrorView;

    open spec fn view(&self) -> ErrorView {
        match self {
            Error::PrecursorMissing { key } => ErrorView::PrecursorMissing { key: key@ },
            Error::RemoteQueryFailed { reason } => ErrorView::RemoteQueryFailed {
                reason: reason@,
            },
            Error::AccountNotFound { kind, address } => ErrorView::AccountNotFound {
                kind: *kind,
                address: address@,
            },
            Error::DeserializeFailed { kind, address } => ErrorView::DeserializeFailed {
                kind: *kind,
                address: address@,
            },
            Error::SubmissionFailed { reason } => ErrorView::SubmissionFailed { reason: reason@ },
            Error::PersistFailed { reason } => ErrorView::PersistFailed { reason: reason@ },
            Error::NoDerivedAddress { mint } => ErrorView::NoDerivedAddress { mint: mint@ },
            Error::OutOfSequence => ErrorView::OutOfSequence,
        }
    }
}

impl ErrorView {
    /// The text of the error. What a transport, the ledger or the store said
    /// is given as it came; the other texts end in the key or the address
    /// that the error is about.
    pub open spec fn message(self) -> Seq<char> {
        match self {
            ErrorView::PrecursorMissing { key } =>
                "Trying to create and set collection when collection item info isn't in cache! This shouldn't happen! Missing key: "@
                    + key,
            ErrorView::RemoteQueryFailed { reason } => reason,
            ErrorView::AccountNotFound { kind: AccountKind::Metadata, address } =>
                "Couldn't find metadata account: "@ + base58_text(address),
            ErrorView::AccountNotFound { kind: AccountKind::MasterEdition, address } =>
                "Couldn't find master edition account: "@ + base58_text(address),
            ErrorView::DeserializeFailed { kind: AccountKind::Metadata, address } =>
                "Failed to deserialize metadata account: "@ + base58_text(address),
            ErrorView::DeserializeFailed { kind: AccountKind::MasterEdition, address } =>
                "Invalid master edition account: "@ + base58_text(address),
            ErrorView::SubmissionFailed { reason } => reason,
            ErrorView::PersistFailed { reason } => reason,
            ErrorView::NoDerivedAddress { mint } =>
                "No address can be derived for the accounts of mint: "@ + base58_text(mint),
            ErrorView::OutOfSequence => "Outcome reported out of sequence"@,
        }
    }
}

impl Error {
    /// The text of the error.
    pub fn message(&self) -> (text: String)
        ensures
            text@ == self@.message(),
    {
        match self {
            Error::PrecursorMissing { key } => {
                String::from_str(
                    "Trying to create and set collection when collection item info isn't in cache! This shouldn't happen! Missing key: ",
                ).concat(key.as_str())
            },
            Error::RemoteQueryFailed { reason } => reason.clone(),
            Error::AccountNotFound { kind, address } => {
                let prefix = match kind {
                    AccountKind::Metadata => "Couldn't find metadata account: ",
                    AccountKind::MasterEdition => "Couldn't find master edition account: ",
                };
                String::from_str(prefix).concat(address.to_base58().as_str())
            },
            Error::DeserializeFailed { kind, address } => {
                let prefix = match kind {
                    AccountKind::Metadata => "Failed to deserialize metadata account: ",
                    AccountKind::MasterEdition => "Invalid master edition account: ",
                };
                String::from_str(prefix).concat(address.to_base58().as_str())
            },
            Error::SubmissionFailed { reason } => reason.clone(),
            Error::PersistFailed { reason } => reason.clone(),
            Error::NoDerivedAddress { mint } => {
                String::from_str("No address can be derived for the accounts of mint: ").concat(
                    mint.to_base58().as_str(),
                )
            },
            Error::OutOfSequence => String::from_str("Outcome reported out of sequence"),
        }
    }
}

} // verus!
