//! Why an operation stopped.

use vstd::prelude::*;

verus! {

/// Why a delegated call did not take effect.
#[derive(Clone, Copy, Debug, PartialEq, Eq, Structural)]
pub enum CallFailure {
    /// The signer seeds do not derive the address of the acting authority.
    SignerDerivation,
    /// The asset protocol turned the call down and reported this code.
    Rejected(u64),
}

/// The failures an operation reports.
#[derive(Clone, Copy, Debug, PartialEq, Eq, Structural)]
pub enum GatewayError {
    /// The collection account is not owned by the asset protocol.
    InvalidCollection,
    /// The collection account holds no data; reported by thaw and update.
    CollectionNotInitialized,
    /// The collection account holds no data; reported by freeze, which uses
    /// this kind, in spite of its name, for a collection not yet initialized.
    CollectionAlreadyInitialized,
    /// The caller is not the creator recorded for the collection.
    NotAuthorized,
    /// The delegated call failed.
    ExternalCallFailed(CallFailure),
}

} // verus!
