use vstd::prelude::*;

verus! {

/// An opaque party identifier (a depositor, a claimant, or an asset's
/// issuing contract), held as the bytes of its external string form.
/// Two addresses denote the same party exactly when their bytes are
/// equal; the bytes carry no further meaning inside this library.
#[derive(Debug)]
pub struct Address {
    pub bytes: Vec<u8>,
}

impl View for Address {
    type V = Seq<u8>;

    open spec fn view(&self) -> Seq<u8> {
        self.bytes@
    }
}

impl DeepView for Address {
    type V = Seq<u8>;

    open spec fn deep_view(&self) -> Seq<u8> {
        self@
    }
}

impl Clone for Address {
    fn clone(&self) -> (r: Self)
        ensures
            r@ == self@,
    {
        let copied = self.bytes.clone();
        proof {
            assert(copied@ =~= self.bytes@);
        }
        Address { bytes: copied }
    }
}

impl Address {
    /// Build an address from its identifying bytes.
    pub fn new(bytes: Vec<u8>) -> (r: Self)
        ensures
            r@ == bytes@,
    {
        Address { bytes }
    }
}

/// Whether two addresses denote the same party.
pub fn addr_eq(a: &Address, b: &Address) -> (r: bool)
    ensures
        r == (a@ == b@),
{
    if a.bytes.len() != b.bytes.len() {
        return false;
    }
    let n = a.bytes.len();
    let mut i: usize = 0;
    while i < n
        invariant
            n == a.bytes.len(),
            n == b.bytes.len(),
            i <= n,
            forall|j: int| 0 <= j < i ==> a.bytes@[j] == b.bytes@[j],
        decreases n - i,
    {
        if a.bytes[i] != b.bytes[i] {
            return false;
        }
        i = i + 1;
    }
    proof {
        assert(a@ =~= b@);
    }
    true
}

/// Whether the address bytes `a` occur among the claimant list `claimants`.
pub open spec fn addr_in(claimants: Seq<Seq<u8>>, a: Seq<u8>) -> bool {
    exists|i: int| 0 <= i < claimants.len() && claimants[i] == a
}

/// Membership test against an ordered claimant list. Order within the
/// list has no effect beyond membership.
pub fn contains_address(claimants: &Vec<Address>, a: &Address) -> (r: bool)
    ensures
        r == addr_in(claimants.deep_view(), a@),
{
    let n = claimants.len();
    let mut i: usize = 0;
    while i < n
        invariant
            n == claimants.len(),
            i <= n,
            forall|j: int| 0 <= j < i ==> claimants.deep_view()[j] != a@,
        decreases n - i,
    {
        if addr_eq(&claimants[i], a) {
            proof {
                assert(claimants.deep_view()[i as int] == a@);
            }
            return true;
        }
        i = i + 1;
    }
    false
}

} // verus!
