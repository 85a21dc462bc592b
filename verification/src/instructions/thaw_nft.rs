//! Thaw: clear an asset's freeze flag.

use vstd::prelude::*;
use crate::address::Address;
use crate::call::{DelegatedCall, Payload};
use crate::error::GatewayError;
use crate::guard::{admission, authorize, check_collection, derive_signer};
use crate::state::{AuthorityAccount, CollectionAccount};

verus! {

/// The accounts of a thaw request.
#[derive(Clone, Copy, Debug, PartialEq, Eq)]
pub struct ThawNft {
    /// The caller, whose identity the host has verified; it also pays.
    pub authority: Address,
    /// The asset to thaw.
    pub asset: Address,
    /// The collection the asset belongs to.
    pub collection: CollectionAccount,
    /// The collection's authority record.
    pub collection_authority: AuthorityAccount,
    /// The program account handed over as the asset protocol.
    pub core_program_id: Address,
    /// The system program account.
    pub system_program: Address,
}

impl ThawNft {
    /// What a thaw request comes to under `program`, the gateway's own
    /// identity: the failure that stops it, or the one call to issue, which
    /// clears the flag and carries the collection, the caller as payer and the
    /// system context, since thawing may allocate.
    pub open spec fn thaw_outcome(self, program: Address) -> Result<DelegatedCall, GatewayError> {
        match admission(
            self.collection,
            self.authority,
            self.collection_authority,
            program,
            GatewayError::CollectionNotInitialized,
        ) {
            Err(e) => Err(e),
            Ok(signer) => Ok(
                DelegatedCall {
                    program: self.core_program_id,
                    asset: self.asset,
                    collection: Some(self.collection.key),
                    authority: Some(self.collection_authority.address),
                    payer: Some(self.authority),
                    system_program: Some(self.system_program),
                    payload: Payload::FreezeFlag { frozen: false },
                    signer,
                },
            ),
        }
    }

    /// Decides a thaw request and builds its delegated call. The accounts are
    /// left as they were.
    pub fn thaw_nft(&mut self, program_id: &Address) -> (decision: Result<
        DelegatedCall,
        GatewayError,
    >)
        ensures
            *final(self) == *old(self),
            decision == old(self).thaw_outcome(*program_id),
    {
        check_collection(&self.collection, GatewayError::CollectionNotInitialized)?;
        authorize(&self.authority, &self.collection_authority.record)?;
        let signer = derive_signer(&self.collection, &self.collection_authority, program_id)?;
        Ok(
            DelegatedCall {
                program: self.core_program_id,
                asset: self.asset,
                collection: Some(self.collection.key),
                authority: Some(self.collection_authority.address),
                payer: Some(self.authority),
                system_program: Some(self.system_program),
                payload: Payload::FreezeFlag { frozen: false },
                signer,
            },
        )
    }
}

} // verus!
