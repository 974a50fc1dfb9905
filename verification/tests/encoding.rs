use vertex_connector::{
    auth_payload, cancel_orders_payload, json_string_array, json_u32_array, order_object,
    place_order_payload, struct_hash, vec_to_fixed_bytes32, Cancellation,
    CancellationProducts, Order, SerializableOrder, SerializableStreamAuthentication,
    StreamAuthentication, StructuredTransaction,
};

#[test]
fn serializable_auth_renders_hex_and_decimal() {
    let tx = StreamAuthentication {
        sender: vec_to_fixed_bytes32(vec![0xab; 32]).unwrap(),
        expiration: 1_700_000_000_000,
    };
    let ser = SerializableStreamAuthentication::from(&tx);
    assert_eq!(ser.sender, "ab".repeat(32));
    assert_eq!(ser.expiration, "1700000000000");
}

#[test]
fn serializable_order_renders_every_field_as_string() {
    let order = Order {
        sender: vec_to_fixed_bytes32(vec![0x01; 32]).unwrap(),
        price_x18: -5,
        amount: 7,
        expiration: 9,
        nonce: 11,
    };
    let ser = SerializableOrder::from(&order);
    assert_eq!(ser.sender, "01".repeat(32));
    assert_eq!(ser.price_x18, "-5");
    assert_eq!(ser.amount, "7");
    assert_eq!(ser.expiration, "9");
    assert_eq!(ser.nonce, "11");
}

#[test]
fn json_arrays_render_without_spaces() {
    assert_eq!(json_u32_array(&vec![]), "[]");
    assert_eq!(json_u32_array(&vec![5]), "[5]");
    assert_eq!(json_u32_array(&vec![1, 22, 333]), "[1,22,333]");
    assert_eq!(json_string_array(&vec![]), "[]");
    assert_eq!(json_string_array(&vec!["a".to_string()]), "[\"a\"]");
    assert_eq!(
        json_string_array(&vec!["a".to_string(), "b".to_string()]),
        "[\"a\",\"b\"]"
    );
}

#[test]
fn order_object_renames_price_to_camel_case() {
    let ser = SerializableOrder {
        sender: "s".to_string(),
        price_x18: "1".to_string(),
        amount: "2".to_string(),
        expiration: "3".to_string(),
        nonce: "4".to_string(),
    };
    assert_eq!(
        order_object(&ser),
        "{\"sender\":\"s\",\"priceX18\":\"1\",\"amount\":\"2\",\"expiration\":\"3\",\"nonce\":\"4\"}"
    );
    assert_eq!(
        place_order_payload(9, &ser, "0xsig", 1),
        "{\"place_order\":{\"product_id\":9,\"order\":{\"sender\":\"s\",\"priceX18\":\"1\",\"amount\":\"2\",\"expiration\":\"3\",\"nonce\":\"4\"},\"signature\":\"0xsig\",\"id\":1}}"
    );
}

#[test]
fn auth_payload_is_exact() {
    let ser = SerializableStreamAuthentication {
        sender: "aa".to_string(),
        expiration: "5".to_string(),
    };
    assert_eq!(
        auth_payload(&ser, "0xsig"),
        "{\"method\":\"authenticate\",\"id\":0,\"tx\":{\"sender\":\"aa\",\"expiration\":\"5\"},\"signature\":\"0xsig\"}"
    );
}

#[test]
fn cancel_payload_keeps_nonce_unquoted() {
    let m = cancel_orders_payload("s", &vec![1], &vec!["d".to_string()], 5, "");
    assert!(m.contains("\"nonce\":5}"));
    assert!(!m.contains("\"nonce\":\"5\""));
}

#[test]
fn cancellation_struct_hash_matches_direct_computation() {
    let word_u32 = |x: u32| -> [u8; 32] {
        let mut w = [0u8; 32];
        w[28..32].copy_from_slice(&x.to_be_bytes());
        w
    };
    let word_u64 = |x: u64| -> [u8; 32] {
        let mut w = [0u8; 32];
        w[24..32].copy_from_slice(&x.to_be_bytes());
        w
    };
    let sender = vec_to_fixed_bytes32(vec![0x02; 32]).unwrap();
    let digest = vec_to_fixed_bytes32(vec![0xaa; 32]).unwrap();
    let tx = StructuredTransaction::Cancellation(Cancellation {
        sender: sender.clone(),
        product_ids: vec![1, 2],
        digests: vec![digest.clone()],
        nonce: 5,
    });

    let type_hash = alloy_primitives::keccak256(
        "Cancellation(bytes32 sender,uint32[] productIds,bytes32[] digests,uint64 nonce)"
            .as_bytes(),
    );
    let mut ids = Vec::new();
    ids.extend_from_slice(&word_u32(1));
    ids.extend_from_slice(&word_u32(2));
    let ids_hash = alloy_primitives::keccak256(&ids);
    let digests_hash = alloy_primitives::keccak256(&digest.bytes);
    let mut enc = Vec::new();
    enc.extend_from_slice(type_hash.as_slice());
    enc.extend_from_slice(&sender.bytes);
    enc.extend_from_slice(ids_hash.as_slice());
    enc.extend_from_slice(digests_hash.as_slice());
    enc.extend_from_slice(&word_u64(5));
    let expected = alloy_primitives::keccak256(&enc);
    assert_eq!(struct_hash(&tx), expected.as_slice());
}

#[test]
fn empty_arrays_hash_as_the_empty_string_digest() {
    let sender = vec_to_fixed_bytes32(vec![0x02; 32]).unwrap();
    let tx = StructuredTransaction::CancellationProducts(CancellationProducts {
        sender: sender.clone(),
        product_ids: vec![],
        nonce: 1,
    });
    let type_hash = alloy_primitives::keccak256(
        "CancellationProducts(bytes32 sender,uint32[] productIds,uint64 nonce)".as_bytes(),
    );
    let empty_hash = alloy_primitives::keccak256(&[] as &[u8]);
    let mut nonce_word = [0u8; 32];
    nonce_word[31] = 1;
    let mut enc = Vec::new();
    enc.extend_from_slice(type_hash.as_slice());
    enc.extend_from_slice(&sender.bytes);
    enc.extend_from_slice(empty_hash.as_slice());
    enc.extend_from_slice(&nonce_word);
    let expected = alloy_primitives::keccak256(&enc);
    assert_eq!(struct_hash(&tx), expected.as_slice());
}
