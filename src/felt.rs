use vstd::prelude::*;

use starknet_crypto::FieldElement;

verus! {

/// `2^64`, the weight of the third limb of a felt.
pub open spec fn two_pow_64() -> nat {
    0x1_0000_0000_0000_0000
}

/// `2^128`, the weight of the second limb of a felt.
pub open spec fn two_pow_128() -> nat {
    two_pow_64() * two_pow_64()
}

/// `2^192`, the weight of the first limb of a felt.
pub open spec fn two_pow_192() -> nat {
    two_pow_128() * two_pow_64()
}

/// The most significant limb of the field's prime `2^251 + 17 * 2^192 + 1`.
pub const PRIME_HIGH_LIMB: u64 = 0x0800_0000_0000_0011;

/// The Stark field's prime `2^251 + 17 * 2^192 + 1`.
pub open spec fn field_prime() -> nat {
    PRIME_HIGH_LIMB as nat * two_pow_192() + 1
}

/// The number written by four big-endian 64-bit limbs.
pub open spec fn limbs_value(l0: u64, l1: u64, l2: u64, l3: u64) -> nat {
    l0 as nat * two_pow_192() + l1 as nat * two_pow_128() + l2 as nat * two_pow_64() + l3 as nat
}

/// Three limbs write a number below `2^192`.
pub(crate) proof fn lemma_low_limbs_bound(l1: u64, l2: u64, l3: u64)
    ensures
        (l1 as nat) * two_pow_128() + (l2 as nat) * two_pow_64() + (l3 as nat) < two_pow_192(),
{
    let b = two_pow_64();
    let (x1, x2, x3) = (l1 as nat, l2 as nat, l3 as nat);
    assert(x2 * b + x3 < b * b) by (nonlinear_arith)
        requires
            x2 < b,
            x3 < b,
    ;
    assert(x1 * (b * b) + (x2 * b + x3) < (b * b) * b) by (nonlinear_arith)
        requires
            x1 < b,
            x2 * b + x3 < b * b,
    ;
}

/// The errors of this library.
#[derive(Clone, Copy, Debug, PartialEq, Eq, Structural)]
pub enum Error {
    /// A sender address is not below `2^251`.
    InvalidAddress,
    /// A value does not fit in the field.
    ConversionOverflow,
}

/// A field element, as four 64-bit limbs, the most significant first.
#[derive(Clone, Copy, Debug, PartialEq, Eq, Structural)]
pub struct Felt {
    pub l0: u64,
    pub l1: u64,
    pub l2: u64,
    pub l3: u64,
}

impl Felt {
    /// The number that the limbs write.
    pub open spec fn value(self) -> nat {
        limbs_value(self.l0, self.l1, self.l2, self.l3)
    }

    /// The felt is canonical: its value lies in the field.
    pub open spec fn wf(self) -> bool {
        self.value() < field_prime()
    }

    /// The felt of the given limbs, or `ConversionOverflow` where they write a
    /// number outside the field.
    pub fn new(l0: u64, l1: u64, l2: u64, l3: u64) -> (r: Result<Felt, Error>)
        ensures
            r is Ok <==> limbs_value(l0, l1, l2, l3) < field_prime(),
            r is Ok ==> r->Ok_0 == (Felt { l0, l1, l2, l3 }),
            r is Err ==> r->Err_0 == Error::ConversionOverflow,
    {
        proof {
            lemma_low_limbs_bound(l1, l2, l3);
        }
        if l0 < PRIME_HIGH_LIMB || (l0 == PRIME_HIGH_LIMB && l1 == 0 && l2 == 0 && l3 == 0) {
            Ok(Felt { l0, l1, l2, l3 })
        } else {
            Err(Error::ConversionOverflow)
        }
    }

    /// The felt whose value is `v`.
    pub fn from_u64(v: u64) -> (r: Felt)
        ensures
            r.wf(),
            r.value() == v,
    {
        Felt { l0: 0, l1: 0, l2: 0, l3: v }
    }

    /// The felt of the limbs `[high, amount, price]`, that is
    /// `high * 2^192 + amount * 2^128 + price`.
    pub fn from_parts(high: u64, amount: u64, price: u128) -> (r: Felt)
        requires
            high < PRIME_HIGH_LIMB,
        ensures
            r.wf(),
            r.value() == high as nat * two_pow_192() + amount as nat * two_pow_128() + price as nat,
    {
        let price_high = (price / 0x1_0000_0000_0000_0000) as u64;
        let price_low = (price % 0x1_0000_0000_0000_0000) as u64;
        let r = Felt { l0: high, l1: amount, l2: price_high, l3: price_low };
        proof {
            lemma_low_limbs_bound(amount, price_high, price_low);
            let rest = r.value() - high as nat * two_pow_192();
            let b = two_pow_192();
            assert(high as nat * b + rest < PRIME_HIGH_LIMB as nat * b) by (nonlinear_arith)
                requires
                    rest < b,
                    high < PRIME_HIGH_LIMB,
            ;
        }
        r
    }
}

/// The values of a sequence of felts.
pub open spec fn felt_values(s: Seq<Felt>) -> Seq<nat> {
    s.map_values(|f: Felt| f.value())
}

/// Every felt of the sequence lies in the field.
pub open spec fn all_wf(s: Seq<Felt>) -> bool {
    forall|i: int| 0 <= i < s.len() ==> #[trigger] s[i].wf()
}

/// What the Poseidon sponge hash of starknet-crypto gives for a sequence of
/// field elements.
pub uninterp spec fn poseidon_of(s: Seq<nat>) -> nat;

/// Relies on `starknet_crypto::poseidon_hash_many`: the Poseidon hash of the
/// elements, in order, which is a field element and depends on the elements
/// alone. The felts go over as big-endian bytes (`FieldElement::from_byte_slice_be`,
/// which accepts every canonical value) and the hash comes back the same way
/// (`FieldElement::to_bytes_be`, which writes the canonical value).
#[verifier::external_body]
pub(crate) fn poseidon_hash_many(msgs: &Vec<Felt>) -> (r: Felt)
    requires
        all_wf(msgs@),
    ensures
        r.wf(),
        r.value() == poseidon_of(felt_values(msgs@)),
{
    let elements: Vec<FieldElement> = msgs.iter().map(|f| {
        let b: Vec<u8> = [f.l0, f.l1, f.l2, f.l3].iter().flat_map(|l| l.to_be_bytes()).collect();
        FieldElement::from_byte_slice_be(&b).unwrap()
    }).collect();
    let h = starknet_crypto::poseidon_hash_many(&elements).to_bytes_be();
    let l: Vec<u64> = h.chunks_exact(8).map(|c| u64::from_be_bytes(c.try_into().unwrap())).collect();
    Felt { l0: l[0], l1: l[1], l2: l[2], l3: l[3] }
}

} // verus!
