use invoke_v3::{
    BroadcastedInvokeTransactionV3, BroadcastedTransactionCommonV3, DataAvailabilityMode, Error,
    Felt, ResourceBounds, ResourceBoundsMapping,
};

fn felt(v: u64) -> Felt {
    Felt::from_u64(v)
}

/// The chain id of the Goerli test network, "SN_GOERLI".
fn testnet_chain_id() -> Felt {
    Felt::new(0, 0, 0x53, 0x4e5f_474f_4552_4c49).unwrap()
}

fn sample_transaction() -> BroadcastedInvokeTransactionV3 {
    BroadcastedInvokeTransactionV3 {
        common: BroadcastedTransactionCommonV3 {
            version: felt(3),
            signature: vec![felt(11), felt(12)],
            nonce: felt(7),
            resource_bounds: ResourceBoundsMapping {
                l1_gas: Some(ResourceBounds { max_amount: 0x186a0, max_price_per_unit: 0x5af3107a4000 }),
                l2_gas: Some(ResourceBounds { max_amount: 0, max_price_per_unit: 0 }),
            },
            tip: 0,
            paymaster_data: vec![],
            nonce_data_availability_mode: DataAvailabilityMode::L1,
            fee_data_availability_mode: DataAvailabilityMode::L1,
        },
        sender_address: Felt::new(0x03f6_f3bc_6635_4e7f, 0x1a5c_cda8_4a5c_3d77, 0x8b8e_4ba1_a2b9_ce77, 0x9cb8_f4b1_1a6d_a8b0).unwrap(),
        calldata: vec![felt(1), felt(2), felt(3)],
        account_deployment_data: vec![felt(5)],
    }
}

fn hash_of(t: &BroadcastedInvokeTransactionV3) -> Felt {
    t.calculate_transaction_hash(testnet_chain_id()).unwrap()
}

#[test]
fn felt_new_accepts_values_below_the_prime() {
    assert!(Felt::new(0x0800_0000_0000_0011, 0, 0, 0).is_ok());
    assert_eq!(Felt::new(0, 0, 0, 9).unwrap(), felt(9));
}

#[test]
fn felt_new_rejects_the_prime_and_above() {
    assert_eq!(Felt::new(0x0800_0000_0000_0011, 0, 0, 1), Err(Error::ConversionOverflow));
    assert_eq!(Felt::new(u64::MAX, 0, 0, 0), Err(Error::ConversionOverflow));
}

#[test]
fn from_parts_packs_limbs() {
    let f = Felt::from_parts(0x4c31_5f47_4153, 5, (7u128 << 64) | 9);
    assert_eq!(f, Felt { l0: 0x4c31_5f47_4153, l1: 5, l2: 7, l3: 9 });
}

#[test]
fn resource_bounds_array_packs_name_amount_and_price() {
    let t = sample_transaction();
    let a = t.common.get_resource_bounds_array();
    assert_eq!(a.len(), 3);
    assert_eq!(a[0], felt(0));
    assert_eq!(a[1], Felt { l0: 0x4c31_5f47_4153, l1: 0x186a0, l2: 0, l3: 0x5af3107a4000 });
    assert_eq!(a[2], Felt { l0: 0x4c32_5f47_4153, l1: 0, l2: 0, l3: 0 });
}

#[test]
fn resource_bounds_array_skips_absent_resources() {
    let mut t = sample_transaction();
    t.common.resource_bounds.l1_gas = None;
    t.common.tip = 4;
    let a = t.common.get_resource_bounds_array();
    assert_eq!(a, vec![felt(4), Felt { l0: 0x4c32_5f47_4153, l1: 0, l2: 0, l3: 0 }]);
}

#[test]
fn common_fields_follow_the_hash_layout() {
    let mut t = sample_transaction();
    t.common.nonce_data_availability_mode = DataAvailabilityMode::L2;
    let prefix = felt(0x696e_766f_6b65);
    let c = t.common.common_fields_for_hash(prefix, testnet_chain_id(), t.sender_address);
    assert_eq!(c.len(), 8);
    assert_eq!(c[0], prefix);
    assert_eq!(c[1], felt(3));
    assert_eq!(c[2], t.sender_address);
    assert_eq!(c[5], testnet_chain_id());
    assert_eq!(c[6], felt(7));
    assert_eq!(c[7], felt(1 << 32));
    // the hashed fields are not the sequences themselves
    assert_ne!(c[3], felt(0));
    assert_ne!(c[4], felt(0));
}

#[test]
fn hash_is_deterministic() {
    let t = sample_transaction();
    assert_eq!(hash_of(&t), hash_of(&t));
    assert_eq!(hash_of(&t), hash_of(&t.clone()));
}

#[test]
fn hash_changes_with_calldata() {
    let t = sample_transaction();
    let mut u = t.clone();
    u.calldata[1] = felt(20);
    assert_ne!(hash_of(&t), hash_of(&u));
    let mut v = t.clone();
    v.calldata.swap(0, 2);
    assert_ne!(hash_of(&t), hash_of(&v));
}

#[test]
fn hash_changes_with_account_deployment_data() {
    let t = sample_transaction();
    let mut u = t.clone();
    u.account_deployment_data[0] = felt(6);
    assert_ne!(hash_of(&t), hash_of(&u));
}

#[test]
fn hash_changes_with_nonce_tip_and_sender() {
    let t = sample_transaction();
    let mut u = t.clone();
    u.common.nonce = felt(8);
    assert_ne!(hash_of(&t), hash_of(&u));
    let mut v = t.clone();
    v.common.tip = 1;
    assert_ne!(hash_of(&t), hash_of(&v));
    let mut w = t.clone();
    w.sender_address = felt(0x1234);
    assert_ne!(hash_of(&t), hash_of(&w));
}

#[test]
fn hash_changes_with_chain_id() {
    let t = sample_transaction();
    let other = t.calculate_transaction_hash(felt(1)).unwrap();
    assert_ne!(hash_of(&t), other);
}

#[test]
fn hash_ignores_signature() {
    let t = sample_transaction();
    let mut u = t.clone();
    u.common.signature = vec![];
    assert_eq!(hash_of(&t), hash_of(&u));
}

#[test]
fn empty_sequences_hash_successfully_and_not_to_zero() {
    let mut t = sample_transaction();
    t.calldata = vec![];
    t.account_deployment_data = vec![];
    let h = t.calculate_transaction_hash(testnet_chain_id());
    assert!(h.is_ok());
    assert_ne!(h.unwrap(), felt(0));
    // empty calldata and empty deployment data are not the same as one zero element
    let mut u = t.clone();
    u.calldata = vec![felt(0)];
    assert_ne!(hash_of(&t), hash_of(&u));
}

#[test]
fn invalid_sender_address_is_rejected() {
    let mut t = sample_transaction();
    t.sender_address = Felt::new(0x0800_0000_0000_0000, 0, 0, 0).unwrap();
    let r = t.create_blockifier_invoke_transaction(testnet_chain_id(), false);
    assert!(matches!(r, Err(Error::InvalidAddress)));
}

#[test]
fn largest_sender_address_is_accepted() {
    let mut t = sample_transaction();
    t.sender_address = Felt::new(0x07ff_ffff_ffff_ffff, u64::MAX, u64::MAX, u64::MAX).unwrap();
    assert!(t.create_blockifier_invoke_transaction(testnet_chain_id(), false).is_ok());
}

#[test]
fn conversion_keeps_fields_and_attaches_hash() {
    let t = sample_transaction();
    let e = t.create_blockifier_invoke_transaction(testnet_chain_id(), true).unwrap();
    assert_eq!(e.tx_hash, hash_of(&t));
    assert!(e.only_query);
    assert_eq!(e.tx.calldata, t.calldata);
    assert_eq!(e.tx.account_deployment_data, t.account_deployment_data);
    assert_eq!(e.tx.signature, t.common.signature);
    assert_eq!(e.tx.paymaster_data, t.common.paymaster_data);
    assert_eq!(e.tx.nonce, t.common.nonce);
    assert_eq!(e.tx.tip, t.common.tip);
    assert_eq!(e.tx.resource_bounds, t.common.resource_bounds);
    assert_eq!(e.tx.sender_address.key(), t.sender_address);
    assert_eq!(e.tx.nonce_data_availability_mode, DataAvailabilityMode::L1);
    assert_eq!(e.tx.fee_data_availability_mode, DataAvailabilityMode::L1);
}

#[test]
fn only_query_does_not_change_the_hash() {
    let t = sample_transaction();
    let a = t.create_blockifier_invoke_transaction(testnet_chain_id(), true).unwrap();
    let b = t.create_blockifier_invoke_transaction(testnet_chain_id(), false).unwrap();
    assert_eq!(a.tx_hash, b.tx_hash);
    assert!(!b.only_query);
}

#[test]
fn data_availability_modes_have_numbers() {
    assert_eq!(DataAvailabilityMode::from_code(0), Some(DataAvailabilityMode::L1));
    assert_eq!(DataAvailabilityMode::from_code(1), Some(DataAvailabilityMode::L2));
    assert_eq!(DataAvailabilityMode::from_code(2), None);
    assert_eq!(DataAvailabilityMode::L2.to_u64(), 1);
    assert_eq!(DataAvailabilityMode::L1.to_u64(), 0);
}
