use vstd::prelude::*;

use crate::felt::{
    all_wf, felt_values, poseidon_hash_many, poseidon_of, two_pow_128, two_pow_192, two_pow_64,
    Error, Felt,
};

verus! {

/// The transaction-kind prefix of invoke transactions: the ASCII bytes of "invoke".
pub const PREFIX_INVOKE: u64 = 0x696e_766f_6b65;

/// The ASCII bytes of "L1_GAS", the name of the layer-1 gas resource.
pub const L1_GAS_NAME: u64 = 0x4c31_5f47_4153;

/// The ASCII bytes of "L2_GAS", the name of the layer-2 gas resource.
pub const L2_GAS_NAME: u64 = 0x4c32_5f47_4153;

/// Addresses of contracts lie below `2^251`.
pub open spec fn address_bound() -> nat {
    0x0800_0000_0000_0000 * two_pow_192()
}

/// Where the data of a transaction is published.
#[derive(Clone, Copy, Debug, PartialEq, Eq, Structural)]
pub enum DataAvailabilityMode {
    L1,
    L2,
}

impl DataAvailabilityMode {
    /// The number that stands for the mode in the hash.
    pub open spec fn code(self) -> nat {
        match self {
            DataAvailabilityMode::L1 => 0,
            DataAvailabilityMode::L2 => 1,
        }
    }

    /// The mode whose number is `v`, if there is one.
    pub fn from_code(v: u8) -> (r: Option<DataAvailabilityMode>)
        ensures
            r is Some <==> v < 2,
            r is Some ==> r->Some_0.code() == v,
    {
        if v == 0 {
            Some(DataAvailabilityMode::L1)
        } else if v == 1 {
            Some(DataAvailabilityMode::L2)
        } else {
            None
        }
    }

    /// The number that stands for the mode.
    pub fn to_u64(&self) -> (r: u64)
        ensures
            r == self.code(),
    {
        match self {
            DataAvailabilityMode::L1 => 0,
            DataAvailabilityMode::L2 => 1,
        }
    }
}

/// The nonce mode shifted past the fee mode, as one field element.
pub open spec fn data_availability_value(
    nonce_mode: DataAvailabilityMode,
    fee_mode: DataAvailabilityMode,
) -> nat {
    nonce_mode.code() * 0x1_0000_0000 + fee_mode.code()
}

/// The most that the sender pays for one resource.
#[derive(Clone, Copy, Debug, PartialEq, Eq, Structural)]
pub struct ResourceBounds {
    pub max_amount: u64,
    pub max_price_per_unit: u128,
}

/// The resource's name, amount and price packed into one field element:
/// `name * 2^192 + max_amount * 2^128 + max_price_per_unit`.
pub open spec fn resource_bound_value(name: u64, b: ResourceBounds) -> nat {
    name as nat * two_pow_192() + b.max_amount as nat * two_pow_128()
        + b.max_price_per_unit as nat
}

/// The bounds given for each resource, if any.
#[derive(Clone, Copy, Debug, PartialEq, Eq, Structural)]
pub struct ResourceBoundsMapping {
    pub l1_gas: Option<ResourceBounds>,
    pub l2_gas: Option<ResourceBounds>,
}

/// The packed bound of a resource where one is given, else nothing.
pub open spec fn optional_bound_value(name: u64, b: Option<ResourceBounds>) -> Seq<nat> {
    match b {
        Some(b) => seq![resource_bound_value(name, b)],
        None => seq![],
    }
}

/// The fee fields in hashing order: the tip, then the bound of layer-1 gas and
/// of layer-2 gas where they are given.
pub open spec fn fee_fields(tip: u64, bounds: ResourceBoundsMapping) -> Seq<nat> {
    seq![tip as nat] + optional_bound_value(L1_GAS_NAME, bounds.l1_gas) + optional_bound_value(
        L2_GAS_NAME,
        bounds.l2_gas,
    )
}

/// The resource's name, amount and price packed into one felt.
fn pack_resource_bound(name: u64, b: ResourceBounds) -> (r: Felt)
    requires
        name < 0x0800_0000_0000_0000,
    ensures
        r.wf(),
        r.value() == resource_bound_value(name, b),
{
    Felt::from_parts(name, b.max_amount, b.max_price_per_unit)
}

/// The appended felt's value follows the others.
proof fn lemma_push_values(s: Seq<Felt>, f: Felt)
    ensures
        felt_values(s.push(f)) == felt_values(s).push(f.value()),
{
    assert(felt_values(s.push(f)) =~= felt_values(s).push(f.value()));
}

/// The fields that every version-3 transaction carries.
#[derive(Clone, Debug)]
pub struct BroadcastedTransactionCommonV3 {
    pub version: Felt,
    pub signature: Vec<Felt>,
    pub nonce: Felt,
    pub resource_bounds: ResourceBoundsMapping,
    pub tip: u64,
    pub paymaster_data: Vec<Felt>,
    pub nonce_data_availability_mode: DataAvailabilityMode,
    pub fee_data_availability_mode: DataAvailabilityMode,
}

impl BroadcastedTransactionCommonV3 {
    /// Every felt of the fields lies in the field.
    pub open spec fn wf(&self) -> bool {
        &&& self.version.wf()
        &&& self.nonce.wf()
        &&& all_wf(self.signature@)
        &&& all_wf(self.paymaster_data@)
    }

    /// The shared fields in hashing order: prefix, version, sender address,
    /// hash of the fee fields, hash of the paymaster data, chain id, nonce and
    /// the two data-availability modes.
    pub open spec fn common_fields(&self, prefix: nat, chain_id: nat, address: nat) -> Seq<nat> {
        seq![
            prefix,
            self.version.value(),
            address,
            poseidon_of(fee_fields(self.tip, self.resource_bounds)),
            poseidon_of(felt_values(self.paymaster_data@)),
            chain_id,
            self.nonce.value(),
            data_availability_value(
                self.nonce_data_availability_mode,
                self.fee_data_availability_mode,
            ),
        ]
    }

    /// The tip and the packed resource bounds, in hashing order.
    pub fn get_resource_bounds_array(&self) -> (r: Vec<Felt>)
        ensures
            all_wf(r@),
            felt_values(r@) == fee_fields(self.tip, self.resource_bounds),
    {
        let mut r: Vec<Felt> = Vec::new();
        r.push(Felt::from_u64(self.tip));
        proof {
            lemma_push_values(Seq::empty(), r[0]);
            assert(felt_values(Seq::empty()) =~= Seq::<nat>::empty());
        }
        let ghost first = felt_values(r@);
        if let Some(b) = self.resource_bounds.l1_gas {
            let f = pack_resource_bound(L1_GAS_NAME, b);
            proof {
                lemma_push_values(r@, f);
            }
            r.push(f);
        }
        assert(felt_values(r@) == first + optional_bound_value(
            L1_GAS_NAME,
            self.resource_bounds.l1_gas,
        ));
        let ghost second = felt_values(r@);
        if let Some(b) = self.resource_bounds.l2_gas {
            let f = pack_resource_bound(L2_GAS_NAME, b);
            proof {
                lemma_push_values(r@, f);
            }
            r.push(f);
        }
        assert(felt_values(r@) =~= second + optional_bound_value(
            L2_GAS_NAME,
            self.resource_bounds.l2_gas,
        ));
        r
    }

    /// The shared fields of the hash for the given transaction-kind prefix,
    /// chain id and sender address.
    pub fn common_fields_for_hash(&self, prefix: Felt, chain_id: Felt, address: Felt) -> (r: Vec<
        Felt,
    >)
        requires
            self.wf(),
            prefix.wf(),
            chain_id.wf(),
            address.wf(),
        ensures
            all_wf(r@),
            felt_values(r@) == self.common_fields(prefix.value(), chain_id.value(), address.value()),
    {
        let bounds = self.get_resource_bounds_array();
        let bounds_hash = poseidon_hash_many(&bounds);
        let paymaster_hash = poseidon_hash_many(&self.paymaster_data);
        let modes = Felt::from_u64(
            self.nonce_data_availability_mode.to_u64() * 0x1_0000_0000
                + self.fee_data_availability_mode.to_u64(),
        );
        let mut r: Vec<Felt> = Vec::new();
        r.push(prefix);
        r.push(self.version);
        r.push(address);
        r.push(bounds_hash);
        r.push(paymaster_hash);
        r.push(chain_id);
        r.push(self.nonce);
        r.push(modes);
        assert(felt_values(r@) =~= self.common_fields(
            prefix.value(),
            chain_id.value(),
            address.value(),
        ));
        r
    }
}

/// Copies a sequence of felts into a new vector, keeping order and count.
fn copy_felts(v: &Vec<Felt>) -> (r: Vec<Felt>)
    ensures
        r@ == v@,
{
    let mut r: Vec<Felt> = Vec::new();
    let mut i: usize = 0;
    while i < v.len()
        invariant
            i <= v.len(),
            r@ == v@.subrange(0, i as int),
        decreases v.len() - i,
    {
        r.push(v[i]);
        i = i + 1;
        assert(r@ =~= v@.subrange(0, i as int));
    }
    assert(r@ =~= v@);
    r
}

/// An invoke transaction as a sender submits it.
#[derive(Clone, Debug)]
pub struct BroadcastedInvokeTransactionV3 {
    pub common: BroadcastedTransactionCommonV3,
    pub sender_address: Felt,
    pub calldata: Vec<Felt>,
    pub account_deployment_data: Vec<Felt>,
}

impl BroadcastedInvokeTransactionV3 {
    /// Every felt of the transaction lies in the field.
    pub open spec fn wf(&self) -> bool {
        &&& self.common.wf()
        &&& self.sender_address.wf()
        &&& all_wf(self.calldata@)
        &&& all_wf(self.account_deployment_data@)
    }

    /// What the final hash is taken of: the shared fields, then the hash of
    /// the account deployment data, then the hash of the calldata.
    pub open spec fn hash_preimage(&self, chain_id: nat) -> Seq<nat> {
        self.common.common_fields(PREFIX_INVOKE as nat, chain_id, self.sender_address.value())
            + seq![
            poseidon_of(felt_values(self.account_deployment_data@)),
            poseidon_of(felt_values(self.calldata@)),
        ]
    }

    /// The hash of the transaction on the given chain.
    pub open spec fn transaction_hash(&self, chain_id: nat) -> nat {
        poseidon_of(self.hash_preimage(chain_id))
    }

    /// Computes the transaction hash on the chain `chain_id`:
    /// `h(common fields, h(account_deployment_data), h(calldata))` with the
    /// Poseidon hash.
    pub fn calculate_transaction_hash(&self, chain_id: Felt) -> (r: Result<Felt, Error>)
        requires
            self.wf(),
            chain_id.wf(),
        ensures
            r is Ok,
            r->Ok_0.wf(),
            r->Ok_0.value() == self.transaction_hash(chain_id.value()),
    {
        let mut fields = self.common.common_fields_for_hash(
            Felt::from_u64(PREFIX_INVOKE),
            chain_id,
            self.sender_address,
        );
        let account_deployment_data_hash = poseidon_hash_many(&self.account_deployment_data);
        let call_data_hash = poseidon_hash_many(&self.calldata);
        proof {
            lemma_push_values(fields@, account_deployment_data_hash);
            lemma_push_values(fields@.push(account_deployment_data_hash), call_data_hash);
        }
        fields.push(account_deployment_data_hash);
        fields.push(call_data_hash);
        assert(felt_values(fields@) =~= self.hash_preimage(chain_id.value()));
        Ok(poseidon_hash_many(&fields))
    }

    /// The transaction in execution form, with its hash on the chain
    /// `chain_id` and the given query flag; `InvalidAddress` where the sender
    /// address is not below `2^251`.
    pub fn create_blockifier_invoke_transaction(&self, chain_id: Felt, only_query: bool) -> (r:
        Result<InvokeTransaction, Error>)
        requires
            self.wf(),
            chain_id.wf(),
        ensures
            r is Ok <==> self.sender_address.value() < address_bound(),
            r is Err ==> r->Err_0 == Error::InvalidAddress,
            r is Ok ==> r->Ok_0.tx_hash.wf() && r->Ok_0.tx_hash.value() == self.transaction_hash(
                chain_id.value(),
            ),
            r is Ok ==> r->Ok_0.only_query == only_query,
            r is Ok ==> r->Ok_0.tx.is_translation_of(self),
    {
        let txn_hash = match self.calculate_transaction_hash(chain_id) {
            Ok(h) => h,
            Err(e) => {
                return Err(e);
            },
        };
        let sender_address = match ContractAddress::try_from_felt(self.sender_address) {
            Ok(a) => a,
            Err(e) => {
                return Err(e);
            },
        };
        let tx = InvokeTransactionV3 {
            resource_bounds: self.common.resource_bounds,
            tip: self.common.tip,
            signature: copy_felts(&self.common.signature),
            nonce: self.common.nonce,
            sender_address,
            calldata: copy_felts(&self.calldata),
            nonce_data_availability_mode: self.common.nonce_data_availability_mode,
            fee_data_availability_mode: self.common.fee_data_availability_mode,
            paymaster_data: copy_felts(&self.common.paymaster_data),
            account_deployment_data: copy_felts(&self.account_deployment_data),
        };
        Ok(InvokeTransaction { tx, tx_hash: txn_hash, only_query })
    }
}

/// The address of a contract: a felt below `2^251`.
#[derive(Clone, Copy, Debug, PartialEq, Eq, Structural)]
pub struct ContractAddress {
    key: Felt,
}

impl ContractAddress {
    /// The felt that the address holds.
    pub closed spec fn view_key(self) -> Felt {
        self.key
    }

    /// The address lies below `2^251`.
    pub open spec fn wf(self) -> bool {
        self.view_key().value() < address_bound()
    }

    /// The address `key`, or `InvalidAddress` where it is not below `2^251`.
    pub fn try_from_felt(key: Felt) -> (r: Result<ContractAddress, Error>)
        ensures
            r is Ok <==> key.value() < address_bound(),
            r is Ok ==> r->Ok_0.view_key() == key && r->Ok_0.wf(),
            r is Err ==> r->Err_0 == Error::InvalidAddress,
    {
        proof {
            crate::felt::lemma_low_limbs_bound(key.l1, key.l2, key.l3);
            let b = two_pow_192();
            let rest = key.value() - key.l0 as nat * b;
            if key.l0 < 0x0800_0000_0000_0000 {
                assert(key.l0 as nat * b + rest < 0x0800_0000_0000_0000 * b) by (nonlinear_arith)
                    requires
                        rest < b,
                        key.l0 < 0x0800_0000_0000_0000,
                ;
            } else {
                assert(key.l0 as nat * b >= 0x0800_0000_0000_0000 * b) by (nonlinear_arith)
                    requires
                        key.l0 >= 0x0800_0000_0000_0000,
                ;
            }
        }
        if key.l0 < 0x0800_0000_0000_0000 {
            Ok(ContractAddress { key })
        } else {
            Err(Error::InvalidAddress)
        }
    }

    /// The felt that the address holds.
    pub fn key(&self) -> (r: Felt)
        ensures
            r == self.view_key(),
    {
        self.key
    }
}

/// A version-3 invoke transaction in the form that the execution engine runs.
#[derive(Clone, Debug)]
pub struct InvokeTransactionV3 {
    pub resource_bounds: ResourceBoundsMapping,
    pub tip: u64,
    pub signature: Vec<Felt>,
    pub nonce: Felt,
    pub sender_address: ContractAddress,
    pub calldata: Vec<Felt>,
    pub nonce_data_availability_mode: DataAvailabilityMode,
    pub fee_data_availability_mode: DataAvailabilityMode,
    pub paymaster_data: Vec<Felt>,
    pub account_deployment_data: Vec<Felt>,
}

impl InvokeTransactionV3 {
    /// Every field carries the submitted value: the sequences element by
    /// element, in the same order and count.
    pub open spec fn is_translation_of(&self, t: &BroadcastedInvokeTransactionV3) -> bool {
        &&& self.resource_bounds == t.common.resource_bounds
        &&& self.tip == t.common.tip
        &&& self.signature@ == t.common.signature@
        &&& self.nonce == t.common.nonce
        &&& self.sender_address.view_key() == t.sender_address
        &&& self.calldata@ == t.calldata@
        &&& self.nonce_data_availability_mode == t.common.nonce_data_availability_mode
        &&& self.fee_data_availability_mode == t.common.fee_data_availability_mode
        &&& self.paymaster_data@ == t.common.paymaster_data@
        &&& self.account_deployment_data@ == t.account_deployment_data@
    }
}

/// An invoke transaction ready for execution: the transaction, its hash, and
/// whether it only serves a query (a simulation or an estimate).
#[derive(Clone, Debug)]
pub struct InvokeTransaction {
    pub tx: InvokeTransactionV3,
    pub tx_hash: Felt,
    pub only_query: bool,
}

} // verus!
