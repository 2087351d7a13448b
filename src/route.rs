//! Overlay addresses and routes as plain bytes.
use vstd::prelude::*;

verus! {

/// An overlay address, as the bytes of its textual form.
pub type Address = Vec<u8>;

/// An ordered sequence of overlay hops.
pub type Route = Vec<Address>;

/// The hops of a route, each as its bytes.
pub open spec fn route_view(r: Seq<Address>) -> Seq<Seq<u8>> {
    r.map_values(|a: Address| a@)
}

/// Copies an address.
pub fn copy_address(a: &Address) -> (r: Address)
    ensures
        r@ == a@,
{
    let mut r: Vec<u8> = Vec::new();
    let mut i: usize = 0;
    while i < a.len()
        invariant
            i <= a.len(),
            r@ == a@.subrange(0, i as int),
        decreases a.len() - i,
    {
        r.push(a[i]);
        i += 1;
        assert(r@ =~= a@.subrange(0, i as int));
    }
    assert(r@ =~= a@);
    r
}

/// Copies a route, hop by hop.
pub fn copy_route(r: &Route) -> (c: Route)
    ensures
        route_view(c@) == route_view(r@),
{
    let mut c: Vec<Address> = Vec::new();
    let mut i: usize = 0;
    while i < r.len()
        invariant
            i <= r.len(),
            c@.len() == i,
            forall|j: int| 0 <= j < i ==> (#[trigger] c@[j])@ == r@[j]@,
        decreases r.len() - i,
    {
        let a = copy_address(&r[i]);
        c.push(a);
        i += 1;
    }
    assert(route_view(c@) =~= route_view(r@));
    c
}

/// Whether two addresses are the same.
pub fn same_address(a: &Address, b: &Address) -> (r: bool)
    ensures
        r == (a@ == b@),
{
    if a.len() != b.len() {
        assert(a@.len() != b@.len());
        return false;
    }
    let mut i: usize = 0;
    while i < a.len()
        invariant
            i <= a.len(),
            a.len() == b.len(),
            a@.subrange(0, i as int) == b@.subrange(0, i as int),
        decreases a.len() - i,
    {
        if a[i] != b[i] {
            assert(a@[i as int] != b@[i as int]);
            return false;
        }
        assert(a@.subrange(0, i + 1) =~= a@.subrange(0, i as int).push(a@[i as int]));
        assert(b@.subrange(0, i + 1) =~= b@.subrange(0, i as int).push(b@[i as int]));
        i += 1;
    }
    assert(a@ =~= a@.subrange(0, i as int));
    assert(b@ =~= b@.subrange(0, i as int));
    true
}

} // verus!
