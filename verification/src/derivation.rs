//! Program-derived addresses: the seed path of a collection authority and the
//! address it derives under a program.

use vstd::prelude::*;
use anchor_lang::prelude::Pubkey;
use crate::address::{lemma_address_by_bytes, Address};

verus! {

/// The fixed first seed of every collection-authority path: `collection_authority`.
pub const AUTHORITY_SEED: [u8; 20] = [
    99, 111, 108, 108, 101, 99, 116, 105, 111, 110, 95, 97, 117, 116, 104, 111, 114, 105, 116, 121,
];

/// The address that the host chain derives from a seed path under a program,
/// or `None` where the path derives none.
pub uninterp spec fn program_address(seeds: Seq<Seq<u8>>, program: Seq<u8>) -> Option<Seq<u8>>;

/// Calls `Pubkey::create_program_address` and drops the kind of its error.
/// Trusted: the outcome is a function of the seeds and the program alone.
#[verifier::external_body]
fn create_program_address(seeds: &Vec<Vec<u8>>, program: &Address) -> (derived: Option<Address>)
    ensures
        match derived {
            Some(a) => program_address(seeds.deep_view(), program@) == Some(a@),
            None => program_address(seeds.deep_view(), program@) is None,
        },
{
    let parts: Vec<&[u8]> = seeds.iter().map(|s| s.as_slice()).collect();
    Pubkey::create_program_address(&parts, &Pubkey::new_from_array(program.bytes))
        .ok()
        .map(|key| Address { bytes: key.to_bytes() })
}

/// The seeds that stand for a collection authority's signature: there is no
/// key, only the path that derives the authority's address.
#[derive(Clone, Copy, Debug, PartialEq, Eq)]
pub struct SignerSeeds {
    pub collection: Address,
    pub bump: u8,
}

impl SignerSeeds {
    /// The path: the fixed seed, the collection's bytes, the bump.
    pub open spec fn path(self) -> Seq<Seq<u8>> {
        seq![AUTHORITY_SEED@, self.collection@, seq![self.bump]]
    }

    /// Whether the path derives `address` under `program`.
    pub open spec fn derives(self, program: Address, address: Address) -> bool {
        program_address(self.path(), program@) == Some(address@)
    }

    /// The path as owned byte strings, in order.
    pub fn to_vec(&self) -> (seeds: Vec<Vec<u8>>)
        ensures
            seeds.deep_view() == self.path(),
    {
        let mut prefix: Vec<u8> = Vec::new();
        let mut i: usize = 0;
        while i < 20
            invariant
                i <= 20,
                prefix@ == AUTHORITY_SEED@.take(i as int),
            decreases 20 - i,
        {
            prefix.push(AUTHORITY_SEED[i]);
            i += 1;
        }
        let mut key: Vec<u8> = Vec::new();
        let mut j: usize = 0;
        while j < 32
            invariant
                j <= 32,
                key@ == self.collection@.take(j as int),
            decreases 32 - j,
        {
            key.push(self.collection.bytes[j]);
            j += 1;
        }
        let mut last: Vec<u8> = Vec::new();
        last.push(self.bump);
        let mut seeds: Vec<Vec<u8>> = Vec::new();
        seeds.push(prefix);
        seeds.push(key);
        seeds.push(last);
        proof {
            assert(seeds.deep_view() =~~= self.path());
        }
        seeds
    }

    /// The address that the path derives under `program`, if any.
    pub fn signer_address(&self, program: &Address) -> (derived: Option<Address>)
        ensures
            match derived {
                Some(a) => self.derives(*program, a),
                None => program_address(self.path(), program@) is None,
            },
    {
        let seeds = self.to_vec();
        create_program_address(&seeds, program)
    }

    /// Whether the path derives exactly `address` under `program`.
    pub fn signs_for(&self, program: &Address, address: &Address) -> (yes: bool)
        ensures
            yes == self.derives(*program, *address),
    {
        match self.signer_address(program) {
            Some(derived) => {
                proof {
                    lemma_address_by_bytes(derived, *address);
                }
                derived == *address
            },
            None => false,
        }
    }
}

/// The authority address of a collection under `program`, with its bump: the
/// greatest bump from 255 down to 1 whose path derives an address.
pub fn derive_address(collection: &Address, program: &Address) -> (found: Option<(Address, u8)>)
    ensures
        match found {
            Some((address, bump)) => {
                &&& bump >= 1
                &&& (SignerSeeds { collection: *collection, bump }).derives(*program, address)
                &&& forall|b: u8| bump < b ==> program_address(
                    #[trigger] (SignerSeeds { collection: *collection, bump: b }).path(),
                    program@,
                ) is None
            },
            None => forall|b: u8| 1 <= b ==> program_address(
                #[trigger] (SignerSeeds { collection: *collection, bump: b }).path(),
                program@,
            ) is None,
        },
{
    let mut bump: u8 = 255;
    while bump >= 1
        invariant
            forall|b: u8| bump < b ==> program_address(
                #[trigger] (SignerSeeds { collection: *collection, bump: b }).path(),
                program@,
            ) is None,
        decreases bump,
    {
        let seeds = SignerSeeds { collection: *collection, bump };
        match seeds.signer_address(program) {
            Some(address) => {
                return Some((address, bump));
            },
            None => {},
        }
        bump -= 1;
    }
    None
}

} // verus!
