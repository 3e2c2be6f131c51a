//! The error kinds that storage operations surface.

use vstd::prelude::*;

verus! {

/// The kind of failure a storage operation reports.
///
/// Errors carry no payload: the caller identifies the offending key from the
/// call it made. No operation recovers locally; every error surfaces.
#[derive(Clone, Copy, Debug, PartialEq, Eq, Structural)]
pub enum StoreError {
    /// A deployment operation was handed an execute transaction, or the
    /// other way round.
    WrongKind,
    /// The input is structurally invalid, such as a deployment whose
    /// verifying keys do not line up with its program's functions.
    MalformedInput,
    /// The primary lookup for the requested entity found nothing during a
    /// removal.
    NotFound,
    /// An auxiliary entry that must exist, given that a primary lookup
    /// succeeded, is absent; or a reconstructed transaction's id does not
    /// match its key.
    Corrupt,
    /// The underlying store reported a read or durable-write fault.
    BackendIo,
    /// A top-level finalize was requested while a batch was already open.
    UsageViolation,
    /// A commit failed after some participants had already committed. The
    /// caller must treat this as fatal.
    PartialCommit,
}

impl StoreError {
    /// The plain-text string identifying each error kind.
    pub open spec fn description(self) -> Seq<char> {
        match self {
            StoreError::WrongKind => "wrong transaction kind for this store"@,
            StoreError::MalformedInput => "structurally invalid input"@,
            StoreError::NotFound => "entity not found"@,
            StoreError::Corrupt => "storage is inconsistent"@,
            StoreError::BackendIo => "backend read or write fault"@,
            StoreError::UsageViolation => "an atomic batch is already in progress"@,
            StoreError::PartialCommit => "commit failed after a partial write"@,
        }
    }

    /// A plain-text name for the error kind.
    pub fn describe(&self) -> (r: &'static str)
        ensures
            r@ == self.description(),
    {
        match self {
            StoreError::WrongKind => "wrong transaction kind for this store",
            StoreError::MalformedInput => "structurally invalid input",
            StoreError::NotFound => "entity not found",
            StoreError::Corrupt => "storage is inconsistent",
            StoreError::BackendIo => "backend read or write fault",
            StoreError::UsageViolation => "an atomic batch is already in progress",
            StoreError::PartialCommit => "commit failed after a partial write",
        }
    }
}

} // verus!
