//! Elements of the proving field, and the signed fixed-point embedding.
//!
//! Every quantity the circuit handles — weights, activations, commitment
//! digests, bit decompositions — is an element of a fixed 254-bit prime
//! field, held here as four 64-bit limbs in little-endian order.  A signed
//! integer `x` embeds as `x` itself when non-negative and as `p + x` when
//! negative, so small negative values sit just below the modulus.

use vstd::prelude::*;

verus! {

/// Limbs of the field modulus, little-endian.
pub const P_L0: u64 = 0x43E1F593F0000001;

pub const P_L1: u64 = 0x2833E84879B97091;

pub const P_L2: u64 = 0xB85045B68181585D;

pub const P_L3: u64 = 0x30644E72E131A029;

/// `2^64`, the weight of one limb.
pub open spec fn limb_base() -> nat {
    0x10000000000000000
}

/// The field modulus: a 254-bit prime.
pub open spec fn modulus() -> nat {
    21888242871839275222246405745257275088548364400416034343698204186575808495617nat
}

/// The modulus is exactly the weighted sum of its four limb constants.
pub proof fn lemma_modulus_limbs()
    ensures
        modulus() == P_L0 + P_L1 * limb_base() + P_L2 * limb_base() * limb_base() + P_L3
            * limb_base() * limb_base() * limb_base(),
{
}

/// A field element as four 64-bit limbs, little-endian.
#[derive(Clone, Copy, Debug, PartialEq, Eq, Structural)]
pub struct Felt {
    pub l0: u64,
    pub l1: u64,
    pub l2: u64,
    pub l3: u64,
}

/// The signed embedding: non-negative integers map to themselves,
/// negative ones to `p + x`.
pub open spec fn encode_signed(x: int) -> nat {
    if x >= 0 {
        x as nat
    } else {
        (modulus() + x) as nat
    }
}

impl Felt {
    /// The integer this element stands for, in `[0, p)` when well-formed.
    pub open spec fn value(self) -> nat {
        (self.l0 + self.l1 * limb_base() + self.l2 * limb_base() * limb_base() + self.l3
            * limb_base() * limb_base() * limb_base()) as nat
    }

    /// Well-formed: a canonical residue, strictly below the modulus.
    pub open spec fn wf(self) -> bool {
        self.value() < modulus()
    }

    /// The zero element.
    pub fn zero() -> (r: Felt)
        ensures
            r.wf(),
            r.value() == 0,
    {
        Felt { l0: 0, l1: 0, l2: 0, l3: 0 }
    }

    /// The unit element.
    pub fn one() -> (r: Felt)
        ensures
            r.wf(),
            r.value() == 1,
    {
        Felt { l0: 1, l1: 0, l2: 0, l3: 0 }
    }

    /// Embeds an unsigned machine word; single-limb values are always
    /// canonical.
    pub fn from_u64(x: u64) -> (r: Felt)
        ensures
            r.wf(),
            r.value() == x,
    {
        Felt { l0: x, l1: 0, l2: 0, l3: 0 }
    }

    /// Embeds a signed integer: `x` itself when non-negative, `p - |x|`
    /// when negative.
    pub fn from_i64(x: i64) -> (r: Felt)
        ensures
            r.wf(),
            r.value() == encode_signed(x as int),
    {
        if x >= 0 {
            Felt::from_u64(x as u64)
        } else {
            let a: u64 = ((-(x as i128)) as u64);
            if a <= P_L0 {
                Felt { l0: P_L0 - a, l1: P_L1, l2: P_L2, l3: P_L3 }
            } else {
                let low: u64 = ((P_L0 as u128 + 0x10000000000000000u128 - a as u128) as u64);
                Felt { l0: low, l1: P_L1 - 1, l2: P_L2, l3: P_L3 }
            }
        }
    }

    /// Recovers the signed integer behind a canonical residue that lies in
    /// the signed embedding's image.
    pub fn to_i64(&self) -> (r: i64)
        requires
            self.wf(),
            self.value() < 0x8000000000000000 || modulus() - self.value() <= 0x8000000000000000,
        ensures
            encode_signed(r as int) == self.value(),
    {
        if self.l3 == 0 && self.l2 == 0 && self.l1 == 0 && self.l0 < 0x8000000000000000 {
            self.l0 as i64
        } else {
            // The residue encodes a negative value: recover p - value by
            // limb-wise subtraction with borrows.
            let b0: i128 = P_L0 as i128 - self.l0 as i128;
            let (s0, c0): (u64, u64) = if b0 < 0 {
                (((b0 + 0x10000000000000000i128) as u64), 1)
            } else {
                ((b0 as u64), 0)
            };
            let b1: i128 = P_L1 as i128 - self.l1 as i128 - c0 as i128;
            let (s1, c1): (u64, u64) = if b1 < 0 {
                (((b1 + 0x10000000000000000i128) as u64), 1)
            } else {
                ((b1 as u64), 0)
            };
            let b2: i128 = P_L2 as i128 - self.l2 as i128 - c1 as i128;
            let (s2, c2): (u64, u64) = if b2 < 0 {
                (((b2 + 0x10000000000000000i128) as u64), 1)
            } else {
                ((b2 as u64), 0)
            };
            let s3: u64 = P_L3 - self.l3 - c2;
            proof {
                assert(s0 + s1 * limb_base() + s2 * limb_base() * limb_base() + s3 * limb_base()
                    * limb_base() * limb_base() == modulus() - self.value());
                assert(s1 == 0 && s2 == 0 && s3 == 0 && s0 <= 0x8000000000000000);
            }
            (-(s0 as i128)) as i64
        }
    }
}

/// One byte of a limb: byte `k` carries the bits at positions
/// `8k .. 8k+8`.
pub open spec fn limb_byte(l: u64, k: int) -> u8 {
    (l >> (k * 8)) as u8
}

/// A field element's canonical 32-byte big-endian serialization.
pub open spec fn felt_bytes_be(f: Felt) -> Seq<u8> {
    Seq::new(
        32,
        |i: int|
            if i < 8 {
                limb_byte(f.l3, 7 - i)
            } else if i < 16 {
                limb_byte(f.l2, 15 - i)
            } else if i < 24 {
                limb_byte(f.l1, 23 - i)
            } else {
                limb_byte(f.l0, 31 - i)
            },
    )
}

impl Felt {
    /// Serializes the element as 32 big-endian bytes, the layout the
    /// verifier's call data uses.
    pub fn to_bytes_be(&self) -> (r: Vec<u8>)
        ensures
            r@ == felt_bytes_be(*self),
    {
        let mut r: Vec<u8> = Vec::new();
        let mut i: usize = 0;
        while i < 8
            invariant
                i <= 8,
                r@.len() == i,
                forall|j: int| 0 <= j < i ==> #[trigger] r@[j] == limb_byte(self.l3, 7 - j),
            decreases 8 - i,
        {
            r.push((self.l3 >> (((7 - i) as u64) * 8)) as u8);
            i = i + 1;
        }
        let mut i: usize = 0;
        while i < 8
            invariant
                i <= 8,
                r@.len() == 8 + i,
                forall|j: int| 0 <= j < 8 ==> #[trigger] r@[j] == limb_byte(self.l3, 7 - j),
                forall|j: int| 8 <= j < 8 + i ==> #[trigger] r@[j] == limb_byte(self.l2, 15 - j),
            decreases 8 - i,
        {
            r.push((self.l2 >> (((7 - i) as u64) * 8)) as u8);
            i = i + 1;
        }
        let mut i: usize = 0;
        while i < 8
            invariant
                i <= 8,
                r@.len() == 16 + i,
                forall|j: int| 0 <= j < 8 ==> #[trigger] r@[j] == limb_byte(self.l3, 7 - j),
                forall|j: int| 8 <= j < 16 ==> #[trigger] r@[j] == limb_byte(self.l2, 15 - j),
                forall|j: int| 16 <= j < 16 + i ==> #[trigger] r@[j] == limb_byte(self.l1, 23 - j),
            decreases 8 - i,
        {
            r.push((self.l1 >> (((7 - i) as u64) * 8)) as u8);
            i = i + 1;
        }
        let mut i: usize = 0;
        while i < 8
            invariant
                i <= 8,
                r@.len() == 24 + i,
                forall|j: int| 0 <= j < 8 ==> #[trigger] r@[j] == limb_byte(self.l3, 7 - j),
                forall|j: int| 8 <= j < 16 ==> #[trigger] r@[j] == limb_byte(self.l2, 15 - j),
                forall|j: int| 16 <= j < 24 ==> #[trigger] r@[j] == limb_byte(self.l1, 23 - j),
                forall|j: int| 24 <= j < 24 + i ==> #[trigger] r@[j] == limb_byte(self.l0, 31 - j),
            decreases 8 - i,
        {
            r.push((self.l0 >> (((7 - i) as u64) * 8)) as u8);
            i = i + 1;
        }
        proof {
            assert(r@ =~= felt_bytes_be(*self));
        }
        r
    }
}

/// A field element's value determines its limbs: the base-`2^64`
/// representation is unique.
pub proof fn lemma_felt_value_injective(a: Felt, b: Felt)
    requires
        a.value() == b.value(),
    ensures
        a == b,
{
}

/// The signed embedding is injective on the two machine-word ranges it is
/// used with: equal residues come from equal integers.
pub proof fn lemma_encode_signed_injective(x: int, y: int)
    requires
        -0x8000000000000000 <= x < 0x8000000000000000,
        -0x8000000000000000 <= y < 0x8000000000000000,
        encode_signed(x) == encode_signed(y),
    ensures
        x == y,
{
}

/// Round trip of the signed embedding: decoding the encoding of any
/// signed machine integer gives that integer back.
pub proof fn lemma_signed_embedding_round_trip(x: i64)
    ensures
        forall|f: Felt|
            f.wf() && f.value() == encode_signed(x as int) ==> {
                &&& f.value() < 0x8000000000000000 || modulus() - f.value()
                    <= 0x8000000000000000
                &&& forall|r: i64| encode_signed(r as int) == f.value() ==> r == x
            },
{
    assert forall|f: Felt|
        f.wf() && f.value() == encode_signed(x as int) implies {
        &&& f.value() < 0x8000000000000000 || modulus() - f.value() <= 0x8000000000000000
        &&& forall|r: i64| encode_signed(r as int) == f.value() ==> r == x
    } by {
        assert forall|r: i64| encode_signed(r as int) == f.value() implies r == x by {
            lemma_encode_signed_injective(r as int, x as int);
        }
    }
}

} // verus!
