use vstd::arithmetic::div_mod::lemma_fundamental_div_mod_converse;
use vstd::prelude::*;

use crate::felt::{felt_values, poseidon_of, two_pow_64, Felt};
use crate::transaction::{fee_fields, BroadcastedInvokeTransactionV3, InvokeTransactionV3, PREFIX_INVOKE};

verus! {

/// A number split into a quotient and a remainder below `b` is split one way only.
proof fn lemma_digit_unique(q1: int, r1: int, q2: int, r2: int, b: int)
    requires
        0 <= r1 < b,
        0 <= r2 < b,
        q1 * b + r1 == q2 * b + r2,
    ensures
        q1 == q2,
        r1 == r2,
{
    lemma_fundamental_div_mod_converse(q1 * b + r1, b, q1, r1);
    lemma_fundamental_div_mod_converse(q2 * b + r2, b, q2, r2);
}

/// The value of a felt in Horner form over its limbs.
proof fn lemma_value_horner(f: Felt)
    ensures
        f.value() == ((f.l0 as int * two_pow_64() + f.l1 as int) * two_pow_64() + f.l2 as int)
            * two_pow_64() + f.l3 as int,
{
    let b = two_pow_64() as int;
    let (x0, x1, x2, x3) = (f.l0 as int, f.l1 as int, f.l2 as int, f.l3 as int);
    assert(x0 * (b * b * b) + x1 * (b * b) + x2 * b + x3 == ((x0 * b + x1) * b + x2) * b + x3)
        by (nonlinear_arith);
}

/// Two felts of the same value are the same felt.
pub proof fn lemma_felt_value_injective(a: Felt, b: Felt)
    requires
        a.value() == b.value(),
    ensures
        a == b,
{
    let w = two_pow_64() as int;
    lemma_value_horner(a);
    lemma_value_horner(b);
    let (a0, a1, a2) = (a.l0 as int, a.l1 as int, a.l2 as int);
    let (b0, b1, b2) = (b.l0 as int, b.l1 as int, b.l2 as int);
    lemma_digit_unique((a0 * w + a1) * w + a2, a.l3 as int, (b0 * w + b1) * w + b2, b.l3 as int, w);
    lemma_digit_unique(a0 * w + a1, a2, b0 * w + b1, b2, w);
    lemma_digit_unique(a0, a1, b0, b1, w);
}

/// Hashing is deterministic: any two felts that the hash of the same
/// transaction on the same chain can be are the same felt, so two calls of
/// `calculate_transaction_hash` on the same inputs give the same result.
pub proof fn lemma_hash_deterministic(
    t: BroadcastedInvokeTransactionV3,
    chain_id: nat,
    h1: Felt,
    h2: Felt,
)
    requires
        h1.value() == t.transaction_hash(chain_id),
        h2.value() == t.transaction_hash(chain_id),
    ensures
        h1 == h2,
{
    lemma_felt_value_injective(h1, h2);
}

/// Transactions that differ in the value of the nonce or of the sender
/// address have different sequences under the final hash.
pub proof fn lemma_hash_preimage_sensitive(
    t1: BroadcastedInvokeTransactionV3,
    t2: BroadcastedInvokeTransactionV3,
    chain_id: nat,
)
    requires
        t1.common.nonce.value() != t2.common.nonce.value()
            || t1.sender_address.value() != t2.sender_address.value(),
    ensures
        t1.hash_preimage(chain_id) != t2.hash_preimage(chain_id),
{
    assert(t1.hash_preimage(chain_id)[6] == t1.common.nonce.value());
    assert(t2.hash_preimage(chain_id)[6] == t2.common.nonce.value());
    assert(t1.hash_preimage(chain_id)[2] == t1.sender_address.value());
    assert(t2.hash_preimage(chain_id)[2] == t2.sender_address.value());
}

/// Transactions that differ in the tip, or in the value of an element of the
/// calldata or of the account deployment data, differ in the sequence that
/// the corresponding inner hash is taken of.
pub proof fn lemma_inner_hash_inputs_sensitive(
    t1: BroadcastedInvokeTransactionV3,
    t2: BroadcastedInvokeTransactionV3,
    i: int,
)
    ensures
        t1.common.tip != t2.common.tip ==> fee_fields(t1.common.tip, t1.common.resource_bounds)
            != fee_fields(t2.common.tip, t2.common.resource_bounds),
        0 <= i < t1.calldata@.len() && i < t2.calldata@.len() && t1.calldata@[i].value()
            != t2.calldata@[i].value() ==> felt_values(t1.calldata@) != felt_values(t2.calldata@),
        0 <= i < t1.account_deployment_data@.len() && i < t2.account_deployment_data@.len()
            && t1.account_deployment_data@[i].value() != t2.account_deployment_data@[i].value()
            ==> felt_values(t1.account_deployment_data@) != felt_values(
            t2.account_deployment_data@,
        ),
{
    assert(fee_fields(t1.common.tip, t1.common.resource_bounds)[0] == t1.common.tip);
    assert(fee_fields(t2.common.tip, t2.common.resource_bounds)[0] == t2.common.tip);
    if 0 <= i < t1.calldata@.len() && i < t2.calldata@.len() {
        assert(felt_values(t1.calldata@)[i] == t1.calldata@[i].value());
        assert(felt_values(t2.calldata@)[i] == t2.calldata@[i].value());
    }
    if 0 <= i < t1.account_deployment_data@.len() && i < t2.account_deployment_data@.len() {
        assert(felt_values(t1.account_deployment_data@)[i] == t1.account_deployment_data@[i].value());
        assert(felt_values(t2.account_deployment_data@)[i] == t2.account_deployment_data@[i].value());
    }
}

/// With empty calldata and empty account deployment data, the hash is taken
/// of the shared fields followed twice by the hash of the empty sequence.
pub proof fn lemma_empty_sequences_hash(t: BroadcastedInvokeTransactionV3, chain_id: nat)
    requires
        t.calldata@.len() == 0,
        t.account_deployment_data@.len() == 0,
    ensures
        t.transaction_hash(chain_id) == poseidon_of(
            t.common.common_fields(PREFIX_INVOKE as nat, chain_id, t.sender_address.value())
                + seq![poseidon_of(Seq::empty()), poseidon_of(Seq::empty())],
        ),
{
    assert(felt_values(t.calldata@) =~= Seq::empty());
    assert(felt_values(t.account_deployment_data@) =~= Seq::empty());
}

/// The execution form keeps the value of every element of the calldata, the
/// account deployment data and the signature, in the same order and count.
pub proof fn lemma_translation_keeps_values(
    tx: InvokeTransactionV3,
    t: BroadcastedInvokeTransactionV3,
)
    requires
        tx.is_translation_of(&t),
    ensures
        felt_values(tx.calldata@) == felt_values(t.calldata@),
        felt_values(tx.account_deployment_data@) == felt_values(t.account_deployment_data@),
        felt_values(tx.signature@) == felt_values(t.common.signature@),
        tx.calldata@.len() == t.calldata@.len(),
        tx.account_deployment_data@.len() == t.account_deployment_data@.len(),
        tx.signature@.len() == t.common.signature@.len(),
{
}

} // verus!
