use vstd::prelude::*;

verus! {

/// A 32-byte account identity (a public key).
#[derive(Clone, Copy, Debug)]
pub struct Address {
    pub bytes: [u8; 32],
}

impl View for Address {
    type V = Seq<u8>;

    open spec fn view(&self) -> Seq<u8> {
        self.bytes@
    }
}

impl Address {
    pub fn new(bytes: [u8; 32]) -> (r: Address)
        ensures
            r@ == bytes@,
    {
        Address { bytes }
    }

    /// The all-zero identity, which marks an unused slot.
    pub open spec fn zero_spec() -> Seq<u8> {
        Seq::new(32, |_i: int| 0u8)
    }

    /// The all-zero identity.
    pub fn zero() -> (r: Address)
        ensures
            r@ == Address::zero_spec(),
    {
        let r = Address { bytes: [0u8; 32] };
        assert(r@ =~= Address::zero_spec());
        r
    }

    /// Whether this is the all-zero identity.
    pub fn is_zero(&self) -> (r: bool)
        ensures
            r == (self@ == Address::zero_spec()),
    {
        let mut i: usize = 0;
        while i < 32
            invariant
                0 <= i <= 32,
                forall|j: int| 0 <= j < i ==> self.bytes@[j] == 0u8,
            decreases 32 - i,
        {
            if self.bytes[i] != 0 {
                assert(self@[i as int] != Address::zero_spec()[i as int]);
                return false;
            }
            i = i + 1;
        }
        assert(self@ =~= Address::zero_spec());
        true
    }

    /// Byte-wise equality of two identities.
    pub fn same(&self, other: &Address) -> (r: bool)
        ensures
            r == (self@ == other@),
    {
        let mut i: usize = 0;
        while i < 32
            invariant
                0 <= i <= 32,
                forall|j: int| 0 <= j < i ==> self.bytes@[j] == other.bytes@[j],
            decreases 32 - i,
        {
            if self.bytes[i] != other.bytes[i] {
                return false;
            }
            i = i + 1;
        }
        assert(self.bytes@ =~= other.bytes@);
        true
    }
}

impl PartialEq for Address {
    fn eq(&self, other: &Address) -> (r: bool) {
        self.same(other)
    }
}

impl vstd::std_specs::cmp::PartialEqSpecImpl for Address {
    open spec fn obeys_eq_spec() -> bool {
        true
    }

    open spec fn eq_spec(&self, other: &Address) -> bool {
        self@ == other@
    }
}

impl Eq for Address {
}

} // verus!
