//! The checks every operation makes before it builds its delegated call, in
//! the order it makes them.

use vstd::prelude::*;
use crate::address::{core_program, core_program_id, Address};
use crate::derivation::SignerSeeds;
use crate::error::{CallFailure, GatewayError};
use crate::state::{AuthorityAccount, CollectionAccount, CollectionAuthority};

verus! {

/// What the state of a collection account allows: it must be owned by the
/// asset protocol, and then hold data. An empty account is reported as `empty`,
/// the kind the operation at hand uses for it.
pub open spec fn collection_state(collection: CollectionAccount, empty: GatewayError) -> Result<
    (),
    GatewayError,
> {
    if collection.owner != core_program() {
        Err(GatewayError::InvalidCollection)
    } else if collection.data_len == 0 {
        Err(empty)
    } else {
        Ok(())
    }
}

/// Checks the state of a collection account: ownership first, then storage.
pub fn check_collection(collection: &CollectionAccount, empty: GatewayError) -> (result: Result<
    (),
    GatewayError,
>)
    ensures
        result == collection_state(*collection, empty),
{
    if collection.owner != core_program_id() {
        Err(GatewayError::InvalidCollection)
    } else if collection.data_len == 0 {
        Err(empty)
    } else {
        Ok(())
    }
}

/// The authorization guard: only the recorded creator passes.
pub open spec fn authorization(caller: Address, record: CollectionAuthority) -> Result<
    (),
    GatewayError,
> {
    if caller == record.creator {
        Ok(())
    } else {
        Err(GatewayError::NotAuthorized)
    }
}

/// Runs the authorization guard.
pub fn authorize(caller: &Address, record: &CollectionAuthority) -> (result: Result<
    (),
    GatewayError,
>)
    ensures
        result == authorization(*caller, *record),
{
    if *caller == record.creator {
        Ok(())
    } else {
        Err(GatewayError::NotAuthorized)
    }
}

/// The seeds that sign for the authority of `collection`, as its record gives
/// them.
pub open spec fn authority_seeds(collection: CollectionAccount, authority: AuthorityAccount) -> SignerSeeds {
    SignerSeeds { collection: collection.key, bump: authority.record.bump }
}

/// The signer of a delegated call: the seeds, where they derive the address
/// the record is stored at under `program`; no other signer is ever put in
/// their place.
pub open spec fn signer_of(
    collection: CollectionAccount,
    authority: AuthorityAccount,
    program: Address,
) -> Result<SignerSeeds, GatewayError> {
    let seeds = authority_seeds(collection, authority);
    if seeds.derives(program, authority.address) {
        Ok(seeds)
    } else {
        Err(GatewayError::ExternalCallFailed(CallFailure::SignerDerivation))
    }
}

/// Derives the signer of a delegated call from the record's stored bump.
pub fn derive_signer(
    collection: &CollectionAccount,
    authority: &AuthorityAccount,
    program: &Address,
) -> (result: Result<SignerSeeds, GatewayError>)
    ensures
        result == signer_of(*collection, *authority, *program),
{
    let seeds = SignerSeeds { collection: collection.key, bump: authority.record.bump };
    if seeds.signs_for(program, &authority.address) {
        Ok(seeds)
    } else {
        Err(GatewayError::ExternalCallFailed(CallFailure::SignerDerivation))
    }
}

/// The whole way from a request to the signer of its delegated call: the
/// collection's state, then the caller, then the signer.
pub open spec fn admission(
    collection: CollectionAccount,
    caller: Address,
    authority: AuthorityAccount,
    program: Address,
    empty: GatewayError,
) -> Result<SignerSeeds, GatewayError> {
    match collection_state(collection, empty) {
        Err(e) => Err(e),
        Ok(_) => match authorization(caller, authority.record) {
            Err(e) => Err(e),
            Ok(_) => signer_of(collection, authority, program),
        },
    }
}

} // verus!
