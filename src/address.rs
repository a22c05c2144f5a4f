use vstd::prelude::*;

verus! {

/// Number of leading zero bytes that mark an address as a smart contract's.
pub const SC_ADDRESS_LEADING_ZEROS: usize = 8;

/// A 32-byte account address.
#[derive(Clone, Copy, Debug)]
pub struct Address {
    bytes: [u8; 32],
}

/// An address is contract-controlled exactly when its leading bytes are all zero.
pub open spec fn is_contract_address(a: Seq<u8>) -> bool {
    forall|i: int| 0 <= i < SC_ADDRESS_LEADING_ZEROS ==> #[trigger] a[i] == 0
}

/// Relies on multiversx_sc's `heap::Address::is_smart_contract_address`, which reports
/// whether the first eight bytes of the address are all zero.
#[verifier::external_body]
fn smart_contract_address(bytes: &[u8; 32]) -> (r: bool)
    ensures
        r == is_contract_address(bytes@),
{
    multiversx_sc::types::heap::Address::new(*bytes).is_smart_contract_address()
}

impl View for Address {
    type V = Seq<u8>;

    closed spec fn view(&self) -> Seq<u8> {
        self.bytes@
    }
}

impl Address {
    pub fn new(bytes: [u8; 32]) -> (r: Address)
        ensures
            r@ == bytes@,
    {
        Address { bytes }
    }

    pub fn to_bytes(&self) -> (r: [u8; 32])
        ensures
            r@ == self@,
    {
        self.bytes
    }

    pub proof fn lemma_len(&self)
        ensures
            self@.len() == 32,
    {
        broadcast use vstd::array::group_array_axioms;
        assert(self.bytes@.len() == 32);
    }

    /// Whether the two addresses hold the same bytes.
    pub fn same_as(&self, other: &Address) -> (r: bool)
        ensures
            r == (self@ == other@),
    {
        proof {
            self.lemma_len();
            other.lemma_len();
        }
        let mut i: usize = 0;
        while i < 32
            invariant
                0 <= i <= 32,
                self@.len() == 32,
                other@.len() == 32,
                forall|j: int| 0 <= j < i ==> self@[j] == other@[j],
            decreases 32 - i,
        {
            if self.bytes[i] != other.bytes[i] {
                return false;
            }
            i = i + 1;
        }
        assert(self@ =~= other@);
        true
    }

    /// Whether the address belongs to a smart contract rather than to a user.
    pub fn is_smart_contract(&self) -> (r: bool)
        ensures
            r == is_contract_address(self@),
    {
        smart_contract_address(&self.bytes)
    }
}

} // verus!
