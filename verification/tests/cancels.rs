use vertex_connector::{
    create_domain, hex_decode, hex_to_fixed_bytes32, make_sender_hex, signing_hash,
    vec_to_fixed_bytes32, Cancellation, CancelAllForProductRequest, CancelAndPlaceRequest,
    CancelOrderBytesRequest, CancelOrderRequest, Config, ConnectError, GatewayClient, OrderRequest,
    PlaceOrderRequest, StructuredTransaction, SubscriptionClient, VertexClient,
};

const TEST_KEY: &str = "0000000000000000000000000000000000000000000000000000000000000001";
const TEST_CONTRACT: &str = "0x0000000000000000000000000000000000000001";
const TEST_SENDER: &str = "0xabcdef0123456789abcdef0123456789abcdef01";

fn test_config() -> Config {
    Config {
        sender_address: "abcdef0123456789abcdef0123456789abcdef01".to_string(),
        private_key: TEST_KEY.to_string(),
        arbitrum_testnet_contract: TEST_CONTRACT.to_string(),
        arbitrum_testnet_chain_id: 421613,
        arbitrum_vertex_testnet_subscribe_url: "wss://example.invalid/subscribe".to_string(),
        arbitrum_vertex_testnet_gateway_url: "wss://example.invalid/gateway".to_string(),
    }
}

fn test_client() -> VertexClient {
    VertexClient {
        subscription_client: SubscriptionClient::new(&test_config()).unwrap(),
        gateway_client: GatewayClient::new(test_config()),
    }
}

fn is_lower_hex(s: &str) -> bool {
    s.chars().all(|c| c.is_ascii_digit() || ('a'..='f').contains(&c))
}

/// The signature between a `"signature":"` marker and the text that follows.
fn extract_sig<'a>(frame: &'a str, marker: &str, suffix: &str) -> &'a str {
    let start = frame.find(marker).unwrap() + marker.len();
    let end = frame[start..].find(suffix).unwrap() + start;
    &frame[start..end]
}

#[test]
fn cancel_orders_frame_is_signed() {
    let client = test_client();
    let digest = "ab".repeat(32);
    let request = CancelOrderRequest {
        sender: TEST_SENDER.to_string(),
        product_ids: vec![2, 4],
        digests: vec![digest.clone()],
    };
    let m = client.prepare_cancel_order(&request, 42).unwrap();
    let prefix = format!(
        "{{\"cancel_orders\":{{\"tx\":{{\"sender\":\"{}\",\"productIds\":[2,4],\"digests\":[\"{}\"],\"nonce\":42}},\"signature\":\"0x",
        TEST_SENDER, digest
    );
    assert!(m.starts_with(&prefix));
    assert!(m.ends_with("\"}}"));
    let sig = extract_sig(&m, "\"signature\":\"", "\"}}");
    assert_eq!(sig.len(), 132);
    assert!(is_lower_hex(&sig[2..]));
}

#[test]
fn cancel_orders_frame_with_empty_lists_is_signed() {
    let client = test_client();
    let request = CancelOrderRequest {
        sender: TEST_SENDER.to_string(),
        product_ids: vec![],
        digests: vec![],
    };
    let m = client.prepare_cancel_order(&request, 1).unwrap();
    let prefix = format!(
        "{{\"cancel_orders\":{{\"tx\":{{\"sender\":\"{}\",\"productIds\":[],\"digests\":[],\"nonce\":1}},\"signature\":\"0x",
        TEST_SENDER
    );
    assert!(m.starts_with(&prefix));
    let sig = extract_sig(&m, "\"signature\":\"", "\"}}");
    assert_eq!(sig.len(), 132);
}

#[test]
fn cancel_signature_signs_the_cancellation_hash() {
    let client = test_client();
    let digest_hex = "ab".repeat(32);
    let request = CancelOrderRequest {
        sender: TEST_SENDER.to_string(),
        product_ids: vec![2, 4],
        digests: vec![digest_hex.clone()],
    };
    let m = client.prepare_cancel_order(&request, 42).unwrap();
    let sig_hex = extract_sig(&m, "\"signature\":\"", "\"}}");

    let sender = hex_to_fixed_bytes32(&make_sender_hex(TEST_SENDER)).unwrap();
    let digest = vec_to_fixed_bytes32(hex_decode(&digest_hex).unwrap()).unwrap();
    let tx = StructuredTransaction::Cancellation(Cancellation {
        sender,
        product_ids: vec![2, 4],
        digests: vec![digest],
        nonce: 42,
    });
    let domain = create_domain(TEST_CONTRACT, 421613).unwrap();
    let hash = signing_hash(&tx, &domain);

    let bytes = hex_decode(&sig_hex[2..]).unwrap();
    let mut r = [0u8; 32];
    r.copy_from_slice(&bytes[0..32]);
    let mut s = [0u8; 32];
    s.copy_from_slice(&bytes[32..64]);
    let v = bytes[64] - 27;
    let recovered = ethsign::Signature { v, r, s }.recover(&hash).unwrap();
    let key_bytes = hex_decode(TEST_KEY).unwrap();
    let expected = ethsign::SecretKey::from_raw(&key_bytes).unwrap().public();
    assert_eq!(recovered.address(), expected.address());
}

#[test]
fn cancel_orders_rejects_bad_digests_and_senders() {
    let client = test_client();
    let request = CancelOrderRequest {
        sender: TEST_SENDER.to_string(),
        product_ids: vec![1],
        digests: vec!["abcd".to_string()],
    };
    assert!(matches!(
        client.prepare_cancel_order(&request, 1),
        Err(ConnectError::Protocol(_))
    ));
    let request = CancelOrderRequest {
        sender: TEST_SENDER.to_string(),
        product_ids: vec![1],
        digests: vec!["zz".repeat(32)],
    };
    assert!(matches!(
        client.prepare_cancel_order(&request, 1),
        Err(ConnectError::Protocol(_))
    ));
    let request = CancelOrderRequest {
        sender: "0xnothex".to_string(),
        product_ids: vec![1],
        digests: vec![],
    };
    assert!(matches!(
        client.prepare_cancel_order(&request, 1),
        Err(ConnectError::Signing(_))
    ));
}

#[test]
fn cancel_all_for_product_frame_is_signed() {
    let client = test_client();
    let request = CancelAllForProductRequest {
        sender: TEST_SENDER.to_string(),
        product_ids: vec![9],
    };
    let m = client.prepare_cancel_all_for_product(&request, 7).unwrap();
    let prefix = format!(
        "{{\"cancel_product_orders\":{{\"tx\":{{\"sender\":\"{}\",\"productIds\":[9],\"nonce\":7}},\"signature\":\"0x",
        TEST_SENDER
    );
    assert!(m.starts_with(&prefix));
    assert!(m.ends_with("\"}}"));
    let sig = extract_sig(&m, "\"signature\":\"", "\"}}");
    assert_eq!(sig.len(), 132);
    assert!(is_lower_hex(&sig[2..]));
}

#[test]
fn cancel_and_place_requires_both_halves() {
    let client = test_client();
    let r = client.prepare_cancel_and_place(
        &CancelAndPlaceRequest { cancel_order_request: None, place_order_request: None },
        1,
        "0x0000000000000000000000000000000000000002",
        2,
        3,
    );
    assert!(matches!(r, Err(ConnectError::Protocol(_))));

    let r = client.prepare_cancel_and_place(
        &CancelAndPlaceRequest {
            cancel_order_request: Some(CancelOrderBytesRequest {
                sender: TEST_SENDER.to_string(),
                product_ids: vec![],
                digests: vec![],
            }),
            place_order_request: None,
        },
        1,
        "0x0000000000000000000000000000000000000002",
        2,
        3,
    );
    assert!(matches!(r, Err(ConnectError::Protocol(_))));
}

#[test]
fn cancel_and_place_rejects_short_digests() {
    let client = test_client();
    let r = client.prepare_cancel_and_place(
        &CancelAndPlaceRequest {
            cancel_order_request: Some(CancelOrderBytesRequest {
                sender: TEST_SENDER.to_string(),
                product_ids: vec![1],
                digests: vec![vec![0u8; 31]],
            }),
            place_order_request: Some(place_request()),
        },
        1,
        "0x0000000000000000000000000000000000000002",
        2,
        3,
    );
    assert!(matches!(r, Err(ConnectError::Protocol(_))));
}

fn place_request() -> PlaceOrderRequest {
    PlaceOrderRequest {
        product_id: 2,
        order: Some(OrderRequest {
            sender: TEST_SENDER.to_string(),
            price_x18: "1000000000000000000".to_string(),
            amount: "5".to_string(),
        }),
        id: 3,
    }
}

#[test]
fn cancel_and_place_embeds_hex_digests_and_signs_both_halves() {
    let client = test_client();
    let m = client
        .prepare_cancel_and_place(
            &CancelAndPlaceRequest {
                cancel_order_request: Some(CancelOrderBytesRequest {
                    sender: TEST_SENDER.to_string(),
                    product_ids: vec![2],
                    digests: vec![vec![0xabu8; 32]],
                }),
                place_order_request: Some(place_request()),
            },
            42,
            "0x0000000000000000000000000000000000000002",
            43,
            1700001000,
        )
        .unwrap();
    let digest_hex = "ab".repeat(32);
    let prefix = format!(
        "{{\"cancel_and_place\":{{\"cancel_tx\":{{\"sender\":\"{}\",\"productIds\":[2],\"digests\":[\"{}\"],\"nonce\":42}},\"cancel_signature\":\"0x",
        TEST_SENDER, digest_hex
    );
    assert!(m.starts_with(&prefix));
    let cancel_sig = extract_sig(&m, "\"cancel_signature\":\"", "\",\"place_order\":");
    assert_eq!(cancel_sig.len(), 132);
    assert!(is_lower_hex(&cancel_sig[2..]));
    let expected_order = format!(
        "\",\"place_order\":{{\"product_id\":2,\"order\":{{\"sender\":\"abcdef0123456789abcdef0123456789abcdef0164656661756c740000000000\",\"priceX18\":\"1000000000000000000\",\"amount\":\"5\",\"expiration\":\"1700001000\",\"nonce\":\"43\"}},\"signature\":\"0x"
    );
    assert!(m.contains(&expected_order));
    assert!(m.ends_with("\",\"id\":3}}}"));
}
