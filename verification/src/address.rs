//! Account addresses.

use vstd::prelude::*;

verus! {

/// The 32-byte address of an account. Its view is the sequence of its bytes.
#[derive(Clone, Copy, Debug, Eq, Hash)]
pub struct Address {
    pub bytes: [u8; 32],
}

impl View for Address {
    type V = Seq<u8>;

    open spec fn view(&self) -> Seq<u8> {
        self.bytes@
    }
}

impl PartialEq for Address {
    /// Compares byte by byte.
    fn eq(&self, other: &Address) -> (equal: bool) {
        broadcast use vstd::array::group_array_axioms;

        let mut i: usize = 0;
        while i < 32
            invariant
                i <= 32,
                forall|j: int| 0 <= j < i ==> self.bytes@[j] == other.bytes@[j],
            decreases 32 - i,
        {
            if self.bytes[i] != other.bytes[i] {
                return false;
            }
            i += 1;
        }
        assert(self.bytes@ =~= other.bytes@);
        true
    }
}

impl vstd::std_specs::cmp::PartialEqSpecImpl for Address {
    open spec fn obeys_eq_spec() -> bool {
        true
    }

    open spec fn eq_spec(&self, other: &Address) -> bool {
        self.bytes@ == other.bytes@
    }
}

/// The bytes of the all-zero address. It is the address of the system
/// program, and the value of an address field that was never set.
pub open spec fn zero_address() -> Seq<u8> {
    Seq::new(32, |i: int| 0u8)
}

/// The view of an optional address.
pub open spec fn optional_address(address: Option<Address>) -> Option<Seq<u8>> {
    match address {
        Some(a) => Some(a@),
        None => None,
    }
}

impl Address {
    /// Wraps 32 bytes as an address.
    pub fn new(bytes: [u8; 32]) -> (address: Address)
        ensures
            address@ == bytes@,
    {
        Address { bytes }
    }

    /// Returns the all-zero address.
    pub fn zeroed() -> (address: Address)
        ensures
            address@ == zero_address(),
    {
        broadcast use vstd::array::group_array_axioms;

        let address = Address { bytes: [0u8; 32] };
        assert(address@ =~= zero_address());
        address
    }
}

/// An address has 32 bytes, and two addresses with the same bytes are the
/// same address.
pub proof fn lemma_address_by_bytes(a: Address, b: Address)
    ensures
        a@.len() == 32,
        a@ == b@ <==> a == b,
{
    broadcast use vstd::array::group_array_axioms;

    if a@ == b@ {
        assert(a.bytes =~= b.bytes);
    }
}

} // verus!
