use std::cmp::Ordering;
use vstd::prelude::*;

verus! {

/// `256^n`.
pub open spec fn pow256(n: nat) -> nat
    decreases n,
{
    if n == 0 {
        1
    } else {
        256 * pow256((n - 1) as nat)
    }
}

/// The number that a big-endian byte string denotes.
pub open spec fn be_nat(s: Seq<u8>) -> nat
    decreases s.len(),
{
    if s.len() == 0 {
        0
    } else {
        s[0] as nat * pow256((s.len() - 1) as nat) + be_nat(s.subrange(1, s.len() as int))
    }
}

/// Big-endian bytes of the STARK field prime `p = 2^251 + 17 * 2^192 + 1`.
pub open spec fn field_prime_bytes() -> Seq<u8> {
    seq![
        0x08u8, 0x00, 0x00, 0x00, 0x00, 0x00, 0x00, 0x11, 0x00, 0x00, 0x00, 0x00, 0x00, 0x00,
        0x00, 0x00, 0x00, 0x00, 0x00, 0x00, 0x00, 0x00, 0x00, 0x00, 0x00, 0x00, 0x00, 0x00,
        0x00, 0x00, 0x00, 0x01,
    ]
}

/// The STARK field prime.
pub open spec fn field_prime() -> nat {
    be_nat(field_prime_bytes())
}

/// A byte string of length `n` denotes a number below `256^n`.
pub proof fn lemma_be_nat_bound(s: Seq<u8>)
    ensures
        be_nat(s) < pow256(s.len()),
    decreases s.len(),
{
    if s.len() > 0 {
        let rest = s.subrange(1, s.len() as int);
        let w = pow256((s.len() - 1) as nat);
        lemma_be_nat_bound(rest);
        let d = s[0] as nat;
        assert(d <= 255);
        assert(d * w + w <= 256 * w) by (nonlinear_arith)
            requires
                d <= 255,
        ;
    }
}

/// Of two byte strings of one length, the one with the smaller first byte
/// denotes the smaller number.
proof fn lemma_be_nat_first_byte(a: Seq<u8>, b: Seq<u8>)
    requires
        a.len() == b.len(),
        a.len() > 0,
        a[0] < b[0],
    ensures
        be_nat(a) < be_nat(b),
{
    let n = a.len();
    let w = pow256((n - 1) as nat);
    lemma_be_nat_bound(a.subrange(1, n as int));
    let da = a[0] as nat;
    let db = b[0] as nat;
    assert(da * w + w <= db * w) by (nonlinear_arith)
        requires
            da + 1 <= db,
    ;
}

/// Byte strings that agree on their first `i` bytes compare as their
/// remainders from `i` on do.
proof fn lemma_be_nat_common_prefix(a: Seq<u8>, b: Seq<u8>, i: nat)
    requires
        a.len() == b.len(),
        i <= a.len(),
        a.subrange(0, i as int) == b.subrange(0, i as int),
    ensures
        (be_nat(a) < be_nat(b)) <==> (be_nat(a.subrange(i as int, a.len() as int)) < be_nat(
            b.subrange(i as int, b.len() as int),
        )),
        (be_nat(a) == be_nat(b)) <==> (be_nat(a.subrange(i as int, a.len() as int)) == be_nat(
            b.subrange(i as int, b.len() as int),
        )),
    decreases i,
{
    let n = a.len() as int;
    if i == 0 {
        assert(a.subrange(0, n) =~= a);
        assert(b.subrange(0, n) =~= b);
    } else {
        assert(a[0] == a.subrange(0, i as int)[0]);
        assert(b[0] == b.subrange(0, i as int)[0]);
        let a1 = a.subrange(1, n);
        let b1 = b.subrange(1, n);
        assert(a1.subrange(0, i - 1) =~= a.subrange(0, i as int).subrange(1, i as int));
        assert(b1.subrange(0, i - 1) =~= b.subrange(0, i as int).subrange(1, i as int));
        lemma_be_nat_common_prefix(a1, b1, (i - 1) as nat);
        assert(a1.subrange(i - 1, n - 1) =~= a.subrange(i as int, n));
        assert(b1.subrange(i - 1, n - 1) =~= b.subrange(i as int, n));
    }
}

/// Compares the numbers that two 32-byte big-endian strings denote.
pub fn compare_be(a: &[u8; 32], b: &[u8; 32]) -> (r: Ordering)
    ensures
        (r == Ordering::Less) <==> be_nat(a@) < be_nat(b@),
        (r == Ordering::Equal) <==> be_nat(a@) == be_nat(b@),
        (r == Ordering::Greater) <==> be_nat(a@) > be_nat(b@),
{
    let mut i: usize = 0;
    while i < 32
        invariant
            0 <= i <= 32,
            a@.len() == 32,
            b@.len() == 32,
            a@.subrange(0, i as int) == b@.subrange(0, i as int),
        decreases 32 - i,
    {
        if a[i] != b[i] {
            proof {
                lemma_be_nat_common_prefix(a@, b@, i as nat);
                let ra = a@.subrange(i as int, 32);
                let rb = b@.subrange(i as int, 32);
                if a@[i as int] < b@[i as int] {
                    lemma_be_nat_first_byte(ra, rb);
                } else {
                    lemma_be_nat_first_byte(rb, ra);
                }
            }
            if a[i] < b[i] {
                return Ordering::Less;
            } else {
                return Ordering::Greater;
            }
        }
        proof {
            assert(a@.subrange(0, i + 1) =~= a@.subrange(0, i as int).push(a@[i as int]));
            assert(b@.subrange(0, i + 1) =~= b@.subrange(0, i as int).push(b@[i as int]));
        }
        i = i + 1;
    }
    proof {
        assert(a@ =~= a@.subrange(0, 32));
        assert(b@ =~= b@.subrange(0, 32));
    }
    Ordering::Equal
}

/// A byte string of zeros denotes zero.
pub proof fn lemma_be_nat_zeros(s: Seq<u8>)
    requires
        forall|i: int| 0 <= i < s.len() ==> s[i] == 0,
    ensures
        be_nat(s) == 0,
    decreases s.len(),
{
    if s.len() > 0 {
        lemma_be_nat_zeros(s.subrange(1, s.len() as int));
    }
}

/// Big-endian bytes of the STARK field prime.
fn field_prime_array() -> (r: [u8; 32])
    ensures
        r@ == field_prime_bytes(),
{
    let r: [u8; 32] = [
        0x08, 0x00, 0x00, 0x00, 0x00, 0x00, 0x00, 0x11, 0x00, 0x00, 0x00, 0x00, 0x00, 0x00, 0x00,
        0x00, 0x00, 0x00, 0x00, 0x00, 0x00, 0x00, 0x00, 0x00, 0x00, 0x00, 0x00, 0x00, 0x00, 0x00,
        0x00, 0x01,
    ];
    assert(r@ =~= field_prime_bytes());
    r
}

/// An element of the STARK prime field, held as its canonical 32-byte
/// big-endian encoding. Its view is the number it stands for, which is
/// always below the field prime.
#[derive(Clone, Copy, Debug, PartialEq, Eq, Hash)]
pub struct FieldElement {
    bytes: [u8; 32],
}

impl View for FieldElement {
    type V = nat;

    closed spec fn view(&self) -> nat {
        be_nat(self.bytes@)
    }
}

impl FieldElement {
    #[verifier::type_invariant]
    spec fn canonical(&self) -> bool {
        be_nat(self.bytes@) < field_prime()
    }

    /// The element whose canonical big-endian encoding is `bytes`; `None`
    /// where `bytes` denotes a number not below the field prime.
    pub fn from_bytes_be(bytes: [u8; 32]) -> (r: Option<FieldElement>)
        ensures
            r is Some <==> be_nat(bytes@) < field_prime(),
            r is Some ==> r.unwrap()@ == be_nat(bytes@),
    {
        let p = field_prime_array();
        match compare_be(&bytes, &p) {
            Ordering::Less => Some(FieldElement { bytes }),
            _ => None,
        }
    }

    /// The canonical big-endian encoding of this element.
    pub fn to_bytes_be(&self) -> (r: [u8; 32])
        ensures
            be_nat(r@) == self@,
            be_nat(r@) < field_prime(),
    {
        proof {
            use_type_invariant(self);
        }
        self.bytes
    }

    /// The element that `bytes` encodes, which the caller knows to be canonical.
    pub(crate) fn from_canonical_bytes(bytes: [u8; 32]) -> (r: FieldElement)
        requires
            be_nat(bytes@) < field_prime(),
        ensures
            r@ == be_nat(bytes@),
    {
        FieldElement { bytes }
    }
}

} // verus!
