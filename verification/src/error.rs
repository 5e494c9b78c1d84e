//! Error kinds of the federation core. Every failure is a recoverable
//! per-call failure; none aborts the process.

use vstd::prelude::*;

verus! {

/// One error kind per way a federation operation can fail.
///
/// Trust layer: `InvalidScheme`, `NoDomain`, `DomainNotAllowed`,
/// `DomainMismatch`. Actor/storage layer: `MalformedActorId`,
/// `MissingPublicKey`, `Storage`. Conversion layer: `NotDeleted`,
/// `MissingDeletionTimestamp`, `Deserialize`. Discovery layer: `Network`,
/// `Decode`, `NoMatchingLink`, `NoHref`. Dispatch layer:
/// `PartialDeliveryFailure`, carrying the inbox URLs that could not be
/// reached.
#[derive(Debug, Clone, PartialEq, Eq)]
pub enum FederationError {
    InvalidScheme,
    NoDomain,
    DomainNotAllowed,
    DomainMismatch,
    MalformedActorId,
    MissingPublicKey,
    Storage,
    NotDeleted,
    MissingDeletionTimestamp,
    Deserialize,
    Network,
    Decode,
    NoMatchingLink,
    NoHref,
    PartialDeliveryFailure(Vec<String>),
}

} // verus!
