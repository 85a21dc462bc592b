//! Freeze: set an asset's freeze flag.

use vstd::prelude::*;
use crate::address::Address;
use crate::call::{DelegatedCall, Payload};
use crate::error::GatewayError;
use crate::guard::{admission, authorize, check_collection, derive_signer};
use crate::state::{AuthorityAccount, CollectionAccount};

verus! {

/// The accounts of a freeze request.
#[derive(Clone, Copy, Debug, PartialEq, Eq)]
pub struct FreezeNft {
    /// The caller, whose identity the host has verified.
    pub authority: Address,
    /// The asset to freeze.
    pub asset: Address,
    /// The collection the asset belongs to.
    pub collection: CollectionAccount,
    /// The collection's authority record.
    pub collection_authority: AuthorityAccount,
    /// The program account handed over as the asset protocol.
    pub core_program_id: Address,
    /// The system program account.
    pub system_program: Address,
}

impl FreezeNft {
    /// What a freeze request comes to under `program`, the gateway's own
    /// identity: the failure that stops it, or the one call to issue, which
    /// sets the flag and carries no collection, payer or system context.
    pub open spec fn freeze_outcome(self, program: Address) -> Result<DelegatedCall, GatewayError> {
        match admission(
            self.collection,
            self.authority,
            self.collection_authority,
            program,
            GatewayError::CollectionAlreadyInitialized,
        ) {
            Err(e) => Err(e),
            Ok(signer) => Ok(
                DelegatedCall {
                    program: self.core_program_id,
                    asset: self.asset,
                    collection: None,
                    authority: Some(self.collection_authority.address),
                    payer: None,
                    system_program: None,
                    payload: Payload::FreezeFlag { frozen: true },
                    signer,
                },
            ),
        }
    }

    /// Decides a freeze request and builds its delegated call. The accounts
    /// are left as they were.
    pub fn freeze_nft(&mut self, program_id: &Address) -> (decision: Result<
        DelegatedCall,
        GatewayError,
    >)
        ensures
            *final(self) == *old(self),
            decision == old(self).freeze_outcome(*program_id),
    {
        check_collection(&self.collection, GatewayError::CollectionAlreadyInitialized)?;
        authorize(&self.authority, &self.collection_authority.record)?;
        let signer = derive_signer(&self.collection, &self.collection_authority, program_id)?;
        Ok(
            DelegatedCall {
                program: self.core_program_id,
                asset: self.asset,
                collection: None,
                authority: Some(self.collection_authority.address),
                payer: None,
                system_program: None,
                payload: Payload::FreezeFlag { frozen: true },
                signer,
            },
        )
    }
}

} // verus!
