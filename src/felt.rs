use vstd::prelude::*;

use starknet_api::hash::StarkFelt;

verus! {

/// Storage size, in bytes, of one field element.
pub const FELT_SIZE: usize = 32;

/// The big-endian integer that a sequence of bytes spells.
pub open spec fn felt_int(b: Seq<u8>) -> int
    decreases b.len(),
{
    if b.len() == 0 {
        0
    } else {
        felt_int(b.drop_last()) * 256 + b.last()
    }
}

/// The prime of the STARK field, 2^251 + 17 * 2^192 + 1.
pub open spec fn felt_prime() -> int {
    (vstd::arithmetic::power2::pow2(251) + 17 * vstd::arithmetic::power2::pow2(192) + 1) as int
}

/// A field element, held as its 32 big-endian bytes.
#[derive(Clone, Copy, Debug)]
pub struct Felt {
    pub bytes: [u8; 32],
}

impl Felt {
    /// The element is a reduced residue: its value is below the field prime.
    pub open spec fn is_canonical(&self) -> bool {
        felt_int(self.bytes@) < felt_prime()
    }

    pub open spec fn value(&self) -> int {
        felt_int(self.bytes@)
    }

    /// The field element whose value is `v`.
    pub fn from_u64(v: u64) -> (r: Felt)
        ensures
            r.value() == v as int,
            r.is_canonical(),
            r.bytes@.len() == 32,
    {
        let r = stark_felt_from_u128(v as u128);
        proof {
            lemma_u64_below_prime(v);
        }
        r
    }

    /// Whether two elements have the same bytes.
    pub fn same_as(&self, other: &Felt) -> (r: bool)
        ensures
            r == (self.bytes@ == other.bytes@),
    {
        let mut i: usize = 0;
        while i < 32
            invariant
                0 <= i <= 32,
                self.bytes@.len() == 32,
                other.bytes@.len() == 32,
                forall|j: int| 0 <= j < i ==> self.bytes@[j] == other.bytes@[j],
            decreases 32 - i,
        {
            if self.bytes[i] != other.bytes[i] {
                return false;
            }
            i = i + 1;
        }
        assert(self.bytes@ =~= other.bytes@);
        true
    }
}

impl PartialEq for Felt {
    fn eq(&self, other: &Felt) -> (r: bool) {
        self.same_as(other)
    }
}

impl vstd::std_specs::cmp::PartialEqSpecImpl for Felt {
    open spec fn obeys_eq_spec() -> bool {
        true
    }

    open spec fn eq_spec(&self, other: &Felt) -> bool {
        self.bytes@ == other.bytes@
    }
}

impl Eq for Felt {
}

/// Byte strings of one length that spell the same number are equal.
pub proof fn lemma_felt_int_injective(a: Seq<u8>, b: Seq<u8>)
    requires
        a.len() == b.len(),
        felt_int(a) == felt_int(b),
    ensures
        a == b,
    decreases a.len(),
{
    if a.len() > 0 {
        let x = felt_int(a.drop_last());
        let y = felt_int(b.drop_last());
        let l = a.last() as int;
        let m = b.last() as int;
        lemma_felt_int_nonneg(a.drop_last());
        lemma_felt_int_nonneg(b.drop_last());
        assert(x == y && l == m) by (nonlinear_arith)
            requires
                x * 256 + l == y * 256 + m,
                0 <= l < 256,
                0 <= m < 256,
                x >= 0,
                y >= 0,
        ;
        lemma_felt_int_injective(a.drop_last(), b.drop_last());
        assert(a =~= a.drop_last().push(a.last()));
        assert(b =~= b.drop_last().push(b.last()));
    } else {
        assert(a =~= b);
    }
}

proof fn lemma_felt_int_nonneg(a: Seq<u8>)
    ensures
        felt_int(a) >= 0,
    decreases a.len(),
{
    if a.len() > 0 {
        lemma_felt_int_nonneg(a.drop_last());
    }
}

proof fn lemma_u64_below_prime(v: u64)
    ensures
        (v as int) < felt_prime(),
{
    vstd::arithmetic::power2::lemma2_to64();
    vstd::arithmetic::power2::lemma_pow2_strictly_increases(64, 251);
    vstd::arithmetic::power2::lemma_pow2_pos(192);
}

/// Relies on `StarkFelt::from(u128)`: the value sits big-endian in the low
/// sixteen bytes, the high sixteen are zero.
#[verifier::external_body]
fn stark_felt_from_u128(v: u128) -> (r: Felt)
    ensures
        felt_int(r.bytes@) == v as int,
        r.bytes@.len() == 32,
{
    let f = StarkFelt::from(v);
    let mut bytes = [0u8; 32];
    bytes.copy_from_slice(f.bytes());
    Felt { bytes }
}

} // verus!
