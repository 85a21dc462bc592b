//! What holds of the three operations together.

use vstd::prelude::*;
use crate::address::{core_program, lemma_address_by_bytes, Address};
use crate::call::{issued_calls, settled, CallOutcome, DelegatedCall, Payload};
use crate::derivation::program_address;
use crate::error::{CallFailure, GatewayError};
use crate::guard::{authority_seeds, collection_state};
use crate::instructions::freeze_nft::FreezeNft;
use crate::instructions::thaw_nft::ThawNft;
use crate::instructions::update_nft::{UpdateNft, UpdateNftArgs};
use crate::state::AuthorityAccount;

verus! {

/// A caller other than the recorded creator is refused as not authorized by
/// every operation on a collection that the asset protocol owns and has
/// initialized, and no call is issued.
pub proof fn lemma_stranger_is_refused(
    freeze: FreezeNft,
    thaw: ThawNft,
    update: UpdateNft,
    args: UpdateNftArgs,
    program: Address,
)
    requires
        freeze.collection.owner == core_program() && freeze.collection.data_len != 0,
        thaw.collection.owner == core_program() && thaw.collection.data_len != 0,
        update.collection.owner == core_program() && update.collection.data_len != 0,
        freeze.authority != freeze.collection_authority.record.creator,
        thaw.authority != thaw.collection_authority.record.creator,
        update.authority != update.collection_authority.record.creator,
    ensures
        freeze.freeze_outcome(program) == Err::<DelegatedCall, _>(GatewayError::NotAuthorized),
        thaw.thaw_outcome(program) == Err::<DelegatedCall, _>(GatewayError::NotAuthorized),
        update.update_outcome(args, program) == Err::<DelegatedCall, _>(
            GatewayError::NotAuthorized,
        ),
        issued_calls(freeze.freeze_outcome(program)).len() == 0,
        issued_calls(thaw.thaw_outcome(program)).len() == 0,
        issued_calls(update.update_outcome(args, program)).len() == 0,
{
}

/// A collection that the asset protocol does not own is refused as invalid by
/// every operation, whoever calls and whatever else holds.
pub proof fn lemma_foreign_collection_is_invalid(
    freeze: FreezeNft,
    thaw: ThawNft,
    update: UpdateNft,
    args: UpdateNftArgs,
    program: Address,
)
    requires
        freeze.collection.owner != core_program(),
        thaw.collection.owner != core_program(),
        update.collection.owner != core_program(),
    ensures
        freeze.freeze_outcome(program) == Err::<DelegatedCall, _>(GatewayError::InvalidCollection),
        thaw.thaw_outcome(program) == Err::<DelegatedCall, _>(GatewayError::InvalidCollection),
        update.update_outcome(args, program) == Err::<DelegatedCall, _>(
            GatewayError::InvalidCollection,
        ),
{
}

/// A collection of the asset protocol with empty storage is refused: by freeze
/// as already initialized, by thaw and update as not initialized.
pub proof fn lemma_empty_collection_is_refused(
    freeze: FreezeNft,
    thaw: ThawNft,
    update: UpdateNft,
    args: UpdateNftArgs,
    program: Address,
)
    requires
        freeze.collection.owner == core_program() && freeze.collection.data_len == 0,
        thaw.collection.owner == core_program() && thaw.collection.data_len == 0,
        update.collection.owner == core_program() && update.collection.data_len == 0,
    ensures
        freeze.freeze_outcome(program) == Err::<DelegatedCall, _>(
            GatewayError::CollectionAlreadyInitialized,
        ),
        thaw.thaw_outcome(program) == Err::<DelegatedCall, _>(
            GatewayError::CollectionNotInitialized,
        ),
        update.update_outcome(args, program) == Err::<DelegatedCall, _>(
            GatewayError::CollectionNotInitialized,
        ),
{
}

/// For the creator, on a collection that the asset protocol owns and has
/// initialized and whose record's seeds derive the record's address, freeze
/// issues exactly one call, which sets the flag and has no payer and no system
/// context.
pub proof fn lemma_freeze_issues_one_call(freeze: FreezeNft, program: Address)
    requires
        collection_state(freeze.collection, GatewayError::CollectionAlreadyInitialized) is Ok,
        freeze.authority == freeze.collection_authority.record.creator,
        authority_seeds(freeze.collection, freeze.collection_authority).derives(
            program,
            freeze.collection_authority.address,
        ),
    ensures
        issued_calls(freeze.freeze_outcome(program)).len() == 1,
        issued_calls(freeze.freeze_outcome(program))[0].payload == (Payload::FreezeFlag {
            frozen: true,
        }),
        issued_calls(freeze.freeze_outcome(program))[0].payer is None,
        issued_calls(freeze.freeze_outcome(program))[0].system_program is None,
        issued_calls(freeze.freeze_outcome(program))[0].asset == freeze.asset,
{
}

/// Under the same conditions thaw issues exactly one call, which clears the
/// flag and names the caller as payer and the system context.
pub proof fn lemma_thaw_issues_one_call(thaw: ThawNft, program: Address)
    requires
        collection_state(thaw.collection, GatewayError::CollectionNotInitialized) is Ok,
        thaw.authority == thaw.collection_authority.record.creator,
        authority_seeds(thaw.collection, thaw.collection_authority).derives(
            program,
            thaw.collection_authority.address,
        ),
    ensures
        issued_calls(thaw.thaw_outcome(program)).len() == 1,
        issued_calls(thaw.thaw_outcome(program))[0].payload == (Payload::FreezeFlag {
            frozen: false,
        }),
        issued_calls(thaw.thaw_outcome(program))[0].payer == Some(thaw.authority),
        issued_calls(thaw.thaw_outcome(program))[0].system_program == Some(thaw.system_program),
        issued_calls(thaw.thaw_outcome(program))[0].asset == thaw.asset,
{
}

/// Under the same conditions update issues exactly one call, which carries the
/// two strings exactly as they were given.
pub proof fn lemma_update_relays_strings(update: UpdateNft, args: UpdateNftArgs, program: Address)
    requires
        collection_state(update.collection, GatewayError::CollectionNotInitialized) is Ok,
        update.authority == update.collection_authority.record.creator,
        authority_seeds(update.collection, update.collection_authority).derives(
            program,
            update.collection_authority.address,
        ),
    ensures
        issued_calls(update.update_outcome(args, program)).len() == 1,
        issued_calls(update.update_outcome(args, program))[0].payload == (Payload::Metadata {
            new_name: args.new_name,
            new_uri: args.new_uri,
        }),
{
}

/// A record created under a program re-derives to its own address from its
/// collection and its stored bump.
pub proof fn lemma_created_record_rederives(account: AuthorityAccount, program: Address)
    requires
        account.well_formed(program),
    ensures
        account.seeds().derives(program, account.address),
        forall|other: Address| account.seeds().derives(program, other) ==> other == account.address,
{
    assert forall|other: Address| account.seeds().derives(program, other) implies other
        == account.address by {
        lemma_address_by_bytes(other, account.address);
    }
}

/// No collection has two records: records created under one program for one
/// collection have the same address and the same bump.
pub proof fn lemma_one_record_per_collection(
    first: AuthorityAccount,
    second: AuthorityAccount,
    program: Address,
)
    requires
        first.well_formed(program),
        second.well_formed(program),
        first.record.collection == second.record.collection,
    ensures
        first.address == second.address,
        first.record.bump == second.record.bump,
{
    // Were one bump the greater, the other record would say that it derives
    // nothing.
    if first.record.bump < second.record.bump {
        assert(program_address(second.seeds().path(), program@) is None);
    }
    if second.record.bump < first.record.bump {
        assert(program_address(first.seeds().path(), program@) is None);
    }
    lemma_address_by_bytes(first.address, second.address);
}

/// Where the stored bump does not derive the record's address, the creator's
/// request on a sound collection fails at the signer, in every operation, and
/// no call is issued.
pub proof fn lemma_mismatched_bump_fails(
    freeze: FreezeNft,
    thaw: ThawNft,
    update: UpdateNft,
    args: UpdateNftArgs,
    program: Address,
)
    requires
        collection_state(freeze.collection, GatewayError::CollectionAlreadyInitialized) is Ok,
        collection_state(thaw.collection, GatewayError::CollectionNotInitialized) is Ok,
        collection_state(update.collection, GatewayError::CollectionNotInitialized) is Ok,
        freeze.authority == freeze.collection_authority.record.creator,
        thaw.authority == thaw.collection_authority.record.creator,
        update.authority == update.collection_authority.record.creator,
        !authority_seeds(freeze.collection, freeze.collection_authority).derives(
            program,
            freeze.collection_authority.address,
        ),
        !authority_seeds(thaw.collection, thaw.collection_authority).derives(
            program,
            thaw.collection_authority.address,
        ),
        !authority_seeds(update.collection, update.collection_authority).derives(
            program,
            update.collection_authority.address,
        ),
    ensures
        freeze.freeze_outcome(program) == Err::<DelegatedCall, _>(
            GatewayError::ExternalCallFailed(CallFailure::SignerDerivation),
        ),
        thaw.thaw_outcome(program) == Err::<DelegatedCall, _>(
            GatewayError::ExternalCallFailed(CallFailure::SignerDerivation),
        ),
        update.update_outcome(args, program) == Err::<DelegatedCall, _>(
            GatewayError::ExternalCallFailed(CallFailure::SignerDerivation),
        ),
{
}

/// Every call that an operation issues is signed for the address the record
/// is stored at: the call names that address as its authority, and the seeds
/// it carries derive exactly that address.
pub proof fn lemma_issued_call_is_signed_by_the_record(
    freeze: FreezeNft,
    thaw: ThawNft,
    update: UpdateNft,
    args: UpdateNftArgs,
    program: Address,
)
    ensures
        freeze.freeze_outcome(program) matches Ok(call) ==> {
            &&& call.authority == Some(freeze.collection_authority.address)
            &&& call.signer.derives(program, freeze.collection_authority.address)
        },
        thaw.thaw_outcome(program) matches Ok(call) ==> {
            &&& call.authority == Some(thaw.collection_authority.address)
            &&& call.signer.derives(program, thaw.collection_authority.address)
        },
        update.update_outcome(args, program) matches Ok(call) ==> {
            &&& call.authority == Some(update.collection_authority.address)
            &&& call.signer.derives(program, update.collection_authority.address)
        },
{
}

/// A delegated call that the protocol turns down ends the operation with that
/// failure and its code; one that it accepts ends it with success.
pub proof fn lemma_failed_call_surfaces(code: u64)
    ensures
        settled(CallOutcome::Failed(code)) == Err::<(), _>(
            GatewayError::ExternalCallFailed(CallFailure::Rejected(code)),
        ),
        settled(CallOutcome::Succeeded) == Ok::<(), GatewayError>(()),
{
}

} // verus!
