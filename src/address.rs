use vstd::prelude::*;

verus! {

/// Number of bytes in an address.
pub const ADDRESS_LEN: usize = 20;

/// A 160-bit account or contract address, as its 20 bytes in order.
#[derive(Clone, Copy, Debug, PartialEq, Eq)]
pub struct Address {
    pub bytes: [u8; 20],
}

impl View for Address {
    type V = Seq<u8>;

    open spec fn view(&self) -> Seq<u8> {
        self.bytes@
    }
}

/// Byte `i` of `a` agrees with byte `i` of `t` at every bit set in `m`.
pub open spec fn byte_agrees(a: Seq<u8>, t: Seq<u8>, m: Seq<u8>, i: int) -> bool {
    a[i] & m[i] == t[i] & m[i]
}

/// `a AND m == t AND m`, byte by byte over the whole address.
pub open spec fn address_matches(a: Seq<u8>, t: Seq<u8>, m: Seq<u8>) -> bool {
    forall|i: int| 0 <= i < ADDRESS_LEN ==> #[trigger] byte_agrees(a, t, m, i)
}

/// Every bit of the mask is set: all positions are significant.
pub open spec fn all_ones(m: Seq<u8>) -> bool {
    m.len() == ADDRESS_LEN && forall|i: int| 0 <= i < ADDRESS_LEN ==> #[trigger] m[i] == 0xffu8
}

/// No bit of the mask is set: every position is a wildcard.
pub open spec fn all_zeros(m: Seq<u8>) -> bool {
    m.len() == ADDRESS_LEN && forall|i: int| 0 <= i < ADDRESS_LEN ==> #[trigger] m[i] == 0u8
}

impl Address {
    /// The address whose bytes are `bytes`.
    pub fn new(bytes: [u8; 20]) -> (r: Address)
        ensures
            r@ == bytes@,
    {
        Address { bytes }
    }

    /// The all-zero address.
    pub fn zero() -> (r: Address)
        ensures
            all_zeros(r@),
    {
        Address { bytes: [0u8; 20] }
    }

    /// The address with every bit set.
    pub fn all_ones() -> (r: Address)
        ensures
            all_ones(r@),
    {
        Address { bytes: [0xffu8; 20] }
    }
}

/// Whether `a` and `b` are the same address.
pub fn same_address(a: &Address, b: &Address) -> (r: bool)
    ensures
        r == (a@ == b@),
{
    let mut i: usize = 0;
    while i < ADDRESS_LEN
        invariant
            i <= ADDRESS_LEN,
            forall|j: int| 0 <= j < i ==> a@[j] == b@[j],
        decreases ADDRESS_LEN - i,
    {
        if a.bytes[i] != b.bytes[i] {
            return false;
        }
        i = i + 1;
    }
    assert(a@ =~= b@);
    true
}

/// Whether `address` equals `target` at every bit position that `mask` sets.
pub fn test_address(address: &Address, target: &Address, mask: &Address) -> (r: bool)
    ensures
        r == address_matches(address@, target@, mask@),
{
    let mut i: usize = 0;
    while i < ADDRESS_LEN
        invariant
            i <= ADDRESS_LEN,
            forall|j: int| 0 <= j < i ==> #[trigger] byte_agrees(address@, target@, mask@, j),
        decreases ADDRESS_LEN - i,
    {
        if address.bytes[i] & mask.bytes[i] != target.bytes[i] & mask.bytes[i] {
            assert(!byte_agrees(address@, target@, mask@, i as int));
            return false;
        }
        i = i + 1;
    }
    true
}

/// Any address matches itself, whatever the mask.
pub proof fn lemma_match_reflexive(a: Seq<u8>, m: Seq<u8>)
    ensures
        address_matches(a, a, m),
{
    assert forall|i: int| 0 <= i < ADDRESS_LEN implies #[trigger] byte_agrees(a, a, m, i) by {}
}

/// Under the all-ones mask, two addresses match exactly when they are equal.
pub proof fn lemma_full_mask_is_equality(a: Seq<u8>, b: Seq<u8>, m: Seq<u8>)
    requires
        a.len() == ADDRESS_LEN,
        b.len() == ADDRESS_LEN,
        all_ones(m),
    ensures
        address_matches(a, b, m) <==> a == b,
{
    if address_matches(a, b, m) {
        assert forall|i: int| 0 <= i < ADDRESS_LEN implies a[i] == b[i] by {
            assert(byte_agrees(a, b, m, i));
            let (x, y) = (a[i], b[i]);
            assert(x & 0xffu8 == x && y & 0xffu8 == y) by (bit_vector);
        }
        assert(a =~= b);
    }
    if a == b {
        lemma_match_reflexive(a, m);
    }
}

/// Under the all-zeros mask, every address matches every target.
pub proof fn lemma_empty_mask_matches_all(a: Seq<u8>, b: Seq<u8>, m: Seq<u8>)
    requires
        all_zeros(m),
    ensures
        address_matches(a, b, m),
{
    assert forall|i: int| 0 <= i < ADDRESS_LEN implies #[trigger] byte_agrees(a, b, m, i) by {
        let (x, y) = (a[i], b[i]);
        assert(x & 0u8 == 0u8 && y & 0u8 == 0u8) by (bit_vector);
    }
}

} // verus!
