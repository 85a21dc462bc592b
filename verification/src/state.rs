//! The accounts an operation reads.

use vstd::prelude::*;
use crate::address::{lemma_address_by_bytes, Address};
use crate::derivation::{derive_address, program_address, SignerSeeds};

verus! {

/// The record that binds a collection to its creator.
#[derive(Clone, Copy, Debug, PartialEq, Eq)]
pub struct CollectionAuthority {
    /// The collection this record governs.
    pub collection: Address,
    /// The only identity that may ask for freeze, thaw or update.
    pub creator: Address,
    /// The last seed of the path that derives the record's own address.
    pub bump: u8,
}

/// A collection-authority record together with the address it is stored at.
#[derive(Clone, Copy, Debug, PartialEq, Eq)]
pub struct AuthorityAccount {
    pub address: Address,
    pub record: CollectionAuthority,
}

impl AuthorityAccount {
    /// The seeds that the record itself names: its collection and its bump.
    pub open spec fn seeds(self) -> SignerSeeds {
        SignerSeeds { collection: self.record.collection, bump: self.record.bump }
    }

    /// A record as it is created under `program`: it is stored at the address
    /// that its own seeds derive, and its bump is the greatest that derives
    /// any address for its collection.
    pub open spec fn well_formed(self, program: Address) -> bool {
        &&& self.seeds().derives(program, self.address)
        &&& forall|b: u8|
            self.record.bump < b ==> program_address(
                #[trigger] (SignerSeeds { collection: self.record.collection, bump: b }).path(),
                program@,
            ) is None
    }

    /// Creates the record of `collection` under `program`, with `creator` as
    /// the only identity entitled to act. `None` where no bump from 255 down
    /// to 1 derives an address.
    pub fn create(collection: &Address, creator: &Address, program: &Address) -> (account: Option<
        AuthorityAccount,
    >)
        ensures
            match account {
                Some(a) => {
                    &&& a.well_formed(*program)
                    &&& a.record.collection == *collection
                    &&& a.record.creator == *creator
                    &&& a.record.bump >= 1
                },
                None => forall|b: u8|
                    1 <= b ==> program_address(
                        #[trigger] (SignerSeeds { collection: *collection, bump: b }).path(),
                        program@,
                    ) is None,
            },
    {
        match derive_address(collection, program) {
            Some((address, bump)) => Some(
                AuthorityAccount {
                    address,
                    record: CollectionAuthority { collection: *collection, creator: *creator, bump },
                },
            ),
            None => None,
        }
    }

    /// Derives the record's address again from its collection and its stored
    /// bump.
    pub fn rederive(&self, program: &Address) -> (derived: Option<Address>)
        ensures
            match derived {
                Some(a) => self.seeds().derives(*program, a),
                None => program_address(self.seeds().path(), program@) is None,
            },
            self.well_formed(*program) ==> derived == Some(self.address),
    {
        let seeds = SignerSeeds { collection: self.record.collection, bump: self.record.bump };
        let derived = seeds.signer_address(program);
        proof {
            if let Some(a) = derived {
                lemma_address_by_bytes(a, self.address);
            }
        }
        derived
    }
}

/// What an operation sees of a collection account.
#[derive(Clone, Copy, Debug, PartialEq, Eq)]
pub struct CollectionAccount {
    /// The collection's identity.
    pub key: Address,
    /// The program that owns the account.
    pub owner: Address,
    /// The size of the account's storage in bytes.
    pub data_len: usize,
}

} // verus!
