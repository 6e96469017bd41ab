//! Fixed-width account addresses and the well-known program identifiers.

use vstd::prelude::*;
use vstd::slice::slice_to_vec;

verus! {

/// The system program, which creates accounts and moves native value.
pub const SYSTEM_PROGRAM_ID: [u8; 32] = [
    0, 0, 0, 0, 0, 0, 0, 0, 0, 0, 0, 0, 0, 0, 0, 0,
    0, 0, 0, 0, 0, 0, 0, 0, 0, 0, 0, 0, 0, 0, 0, 0,
];

/// The token program, which owns mints and token accounts.
pub const TOKEN_PROGRAM_ID: [u8; 32] = [
    6, 221, 246, 225, 215, 101, 161, 147, 217, 203, 225, 70, 206, 235, 121, 172,
    28, 180, 133, 237, 95, 91, 55, 145, 58, 140, 245, 133, 126, 255, 0, 169,
];

/// The associated-token-account program, which creates derived token accounts.
pub const ASSOCIATED_TOKEN_PROGRAM_ID: [u8; 32] = [
    140, 151, 37, 143, 78, 36, 137, 241, 187, 61, 16, 41, 20, 142, 13, 131,
    11, 90, 19, 153, 218, 255, 16, 132, 4, 142, 123, 216, 219, 233, 248, 89,
];

/// The token-metadata program, which attaches descriptive fields to a mint.
pub const METADATA_PROGRAM_ID: [u8; 32] = [
    11, 112, 101, 177, 227, 209, 124, 69, 56, 157, 82, 127, 107, 4, 195, 205,
    88, 184, 108, 115, 26, 160, 253, 181, 73, 182, 209, 188, 3, 248, 41, 70,
];

/// The rent sysvar account, which token initialization reads.
pub const RENT_SYSVAR_ID: [u8; 32] = [
    6, 167, 213, 23, 25, 44, 92, 81, 33, 140, 201, 76, 61, 74, 241, 127,
    88, 218, 238, 8, 155, 161, 253, 68, 227, 219, 217, 138, 0, 0, 0, 0,
];

/// An account address: 32 bytes.
#[derive(Clone, Copy, Debug, Hash)]
pub struct Address(pub [u8; 32]);

impl View for Address {
    type V = Seq<u8>;

    open spec fn view(&self) -> Seq<u8> {
        self.0@
    }
}

impl PartialEq for Address {
    fn eq(&self, other: &Address) -> (same: bool) {
        let mut i: usize = 0;
        while i < 32
            invariant
                i <= 32,
                forall|k: int| 0 <= k < i ==> self.0[k] == other.0[k],
            decreases 32 - i,
        {
            if self.0[i] != other.0[i] {
                return false;
            }
            i += 1;
        }
        assert(self.0 =~= other.0);
        true
    }
}

impl Eq for Address {}

impl vstd::std_specs::cmp::PartialEqSpecImpl for Address {
    open spec fn obeys_eq_spec() -> bool {
        true
    }

    open spec fn eq_spec(&self, other: &Address) -> bool {
        self@ == other@
    }
}

impl Address {
    /// The bytes of the address, as an owned vector.
    pub fn to_vec(&self) -> (bytes: Vec<u8>)
        ensures
            bytes@ == self@,
    {
        slice_to_vec(self.0.as_slice())
    }
}

/// The byte strings of a sequence of addresses, in order.
pub open spec fn addresses_view(addresses: Seq<Address>) -> Seq<Seq<u8>> {
    addresses.map_values(|a: Address| a@)
}

/// Two addresses with the same bytes are the same address.
pub proof fn lemma_address_ext(a: Address, b: Address)
    requires
        a@ == b@,
    ensures
        a == b,
{
    assert(a.0 =~= b.0);
}

/// The well-known programs and the rent sysvar have five different addresses.
pub proof fn lemma_well_known_addresses_differ()
    ensures
        SYSTEM_PROGRAM_ID@ != TOKEN_PROGRAM_ID@,
        SYSTEM_PROGRAM_ID@ != ASSOCIATED_TOKEN_PROGRAM_ID@,
        SYSTEM_PROGRAM_ID@ != METADATA_PROGRAM_ID@,
        SYSTEM_PROGRAM_ID@ != RENT_SYSVAR_ID@,
        TOKEN_PROGRAM_ID@ != ASSOCIATED_TOKEN_PROGRAM_ID@,
        TOKEN_PROGRAM_ID@ != METADATA_PROGRAM_ID@,
        TOKEN_PROGRAM_ID@ != RENT_SYSVAR_ID@,
        ASSOCIATED_TOKEN_PROGRAM_ID@ != METADATA_PROGRAM_ID@,
        ASSOCIATED_TOKEN_PROGRAM_ID@ != RENT_SYSVAR_ID@,
        METADATA_PROGRAM_ID@ != RENT_SYSVAR_ID@,
{
    assert(SYSTEM_PROGRAM_ID@[1] == 0);
    assert(TOKEN_PROGRAM_ID@[1] == 221);
    assert(ASSOCIATED_TOKEN_PROGRAM_ID@[1] == 151);
    assert(METADATA_PROGRAM_ID@[1] == 112);
    assert(RENT_SYSVAR_ID@[1] == 167);
}

} // verus!
