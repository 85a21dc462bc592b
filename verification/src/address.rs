//! Identities on the host chain.

use vstd::prelude::*;

verus! {

/// A 32-byte identity: an account, a program or a caller.
#[derive(Clone, Copy, Debug, Eq, Hash)]
pub struct Address {
    pub bytes: [u8; 32],
}

impl View for Address {
    type V = Seq<u8>;

    open spec fn view(&self) -> Seq<u8> {
        self.bytes@
    }
}

/// Two addresses are the same value exactly when they hold the same bytes.
pub proof fn lemma_address_by_bytes(a: Address, b: Address)
    ensures
        (a@ == b@) <==> a == b,
        a@.len() == 32,
{
    if a@ == b@ {
        assert forall|i: int| 0 <= i < 32 implies a.bytes[i] == b.bytes[i] by {
            assert(a@[i] == b@[i]);
        }
        assert(a.bytes =~= b.bytes);
    }
}

impl PartialEq for Address {
    fn eq(&self, other: &Address) -> (same: bool) {
        let mut i: usize = 0;
        while i < 32
            invariant
                i <= 32,
                forall|j: int| 0 <= j < i ==> self.bytes[j] == other.bytes[j],
            decreases 32 - i,
        {
            if self.bytes[i] != other.bytes[i] {
                return false;
            }
            i += 1;
        }
        proof {
            assert(self.bytes =~= other.bytes);
        }
        true
    }
}

impl vstd::std_specs::cmp::PartialEqSpecImpl for Address {
    open spec fn obeys_eq_spec() -> bool {
        true
    }

    open spec fn eq_spec(&self, other: &Address) -> bool {
        *self == *other
    }
}

/// The bytes of the asset protocol's program identity.
pub const CORE_PROGRAM_BYTES: [u8; 32] = [
    175, 84, 171, 16, 189, 151, 165, 66, 160, 158, 247, 179, 152, 137, 221, 12,
    211, 148, 164, 204, 233, 223, 166, 205, 201, 126, 190, 45, 35, 91, 167, 72,
];

/// The asset protocol's program identity, as a value for contracts.
pub open spec fn core_program() -> Address {
    Address { bytes: CORE_PROGRAM_BYTES }
}

/// Reads `mpl_core::ID`, the constant under which the protocol crate publishes
/// its program identity. Trusted: the constant holds `CORE_PROGRAM_BYTES`.
#[verifier::external_body]
pub(crate) fn core_program_id() -> (id: Address)
    ensures
        id == core_program(),
{
    Address { bytes: mpl_core::ID.to_bytes() }
}

} // verus!
