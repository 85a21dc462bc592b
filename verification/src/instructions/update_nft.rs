//! Update: replace an asset's display name and content location.

use vstd::prelude::*;
use crate::address::Address;
use crate::call::{DelegatedCall, Payload};
use crate::error::GatewayError;
use crate::guard::{admission, authorize, check_collection, derive_signer};
use crate::state::{AuthorityAccount, CollectionAccount};

verus! {

/// The two strings of an update request.
#[derive(Clone, Debug, PartialEq, Eq)]
pub struct UpdateNftArgs {
    pub new_name: String,
    pub new_uri: String,
}

/// The accounts of an update request.
#[derive(Clone, Copy, Debug, PartialEq, Eq)]
pub struct UpdateNft {
    /// The caller, whose identity the host has verified; it also pays.
    pub authority: Address,
    /// The asset to update.
    pub asset: Address,
    /// The collection the asset belongs to.
    pub collection: CollectionAccount,
    /// The collection's authority record.
    pub collection_authority: AuthorityAccount,
    /// The program account handed over as the asset protocol.
    pub core_program_id: Address,
    /// The system program account.
    pub system_program: Address,
}

impl UpdateNft {
    /// What an update request comes to under `program`, the gateway's own
    /// identity: the failure that stops it, or the one call to issue, which
    /// carries the two strings as they were given, the collection, the caller
    /// as payer and the system context.
    pub open spec fn update_outcome(self, args: UpdateNftArgs, program: Address) -> Result<
        DelegatedCall,
        GatewayError,
    > {
        match admission(
            self.collection,
            self.authority,
            self.collection_authority,
            program,
            GatewayError::CollectionNotInitialized,
        ) {
            Err(e) => Err(e),
            Ok(signer) => Ok(
                DelegatedCall {
                    program: self.core_program_id,
                    asset: self.asset,
                    collection: Some(self.collection.key),
                    authority: Some(self.collection_authority.address),
                    payer: Some(self.authority),
                    system_program: Some(self.system_program),
                    payload: Payload::Metadata { new_name: args.new_name, new_uri: args.new_uri },
                    signer,
                },
            ),
        }
    }

    /// Decides an update request and builds its delegated call. The accounts
    /// are left as they were.
    pub fn update_nft(&mut self, args: UpdateNftArgs, program_id: &Address) -> (decision: Result<
        DelegatedCall,
        GatewayError,
    >)
        ensures
            *final(self) == *old(self),
            decision == old(self).update_outcome(args, *program_id),
    {
        check_collection(&self.collection, GatewayError::CollectionNotInitialized)?;
        authorize(&self.authority, &self.collection_authority.record)?;
        let signer = derive_signer(&self.collection, &self.collection_authority, program_id)?;
        Ok(
            DelegatedCall {
                program: self.core_program_id,
                asset: self.asset,
                collection: Some(self.collection.key),
                authority: Some(self.collection_authority.address),
                payer: Some(self.authority),
                system_program: Some(self.system_program),
                payload: Payload::Metadata { new_name: args.new_name, new_uri: args.new_uri },
                signer,
            },
        )
    }
}

} // verus!
