use vertex_connector::{
    determine_query_type, parse_status_response, query_message, select_book_address, Config,
    ConnectError, GatewayClient, OrderRequest, PlaceOrderRequest, QueryKind, QueryRequest,
    SubscriptionClient, VertexClient,
};

fn test_config() -> Config {
    Config {
        sender_address: "abcdef0123456789abcdef0123456789abcdef01".to_string(),
        private_key: "0000000000000000000000000000000000000000000000000000000000000001"
            .to_string(),
        arbitrum_testnet_contract: "0x0000000000000000000000000000000000000001".to_string(),
        arbitrum_testnet_chain_id: 421613,
        arbitrum_vertex_testnet_subscribe_url: "wss://example.invalid/subscribe".to_string(),
        arbitrum_vertex_testnet_gateway_url: "wss://example.invalid/gateway".to_string(),
    }
}

fn test_client() -> VertexClient {
    VertexClient {
        subscription_client: SubscriptionClient::new(&test_config()).unwrap(),
        gateway_client: GatewayClient::new(test_config()),
    }
}

#[test]
fn query_frames_are_exact() {
    assert_eq!(query_message(QueryKind::Status), "{\"type\":\"status\"}");
    assert_eq!(query_message(QueryKind::Contracts), "{\"type\":\"contracts\"}");
    assert_eq!(query_message(QueryKind::AllProducts), "{\"type\":\"all_products\"}");
    assert_eq!(query_message(QueryKind::Symbols), "{\"type\":\"symbols\"}");
}

#[test]
fn query_requests_map_to_gateway_kinds() {
    assert_eq!(determine_query_type(&QueryRequest::Status).unwrap(), QueryKind::Status);
    assert_eq!(determine_query_type(&QueryRequest::Contracts).unwrap(), QueryKind::Contracts);
    assert_eq!(determine_query_type(&QueryRequest::Products).unwrap(), QueryKind::AllProducts);
    assert!(matches!(
        determine_query_type(&QueryRequest::Unknown),
        Err(ConnectError::Protocol(_))
    ));
}

#[test]
fn status_response_is_returned_unchanged() {
    let r = parse_status_response("{\"status\":\"ok\",\"data\":{\"uptime\":12}}").unwrap();
    assert_eq!(r.status, "ok");
    let r = parse_status_response("{\"status\":\"success\"}").unwrap();
    assert_eq!(r.status, "success");
}

#[test]
fn status_parse_failures_are_decode_errors() {
    assert!(matches!(
        parse_status_response("{\"state\":\"ok\"}"),
        Err(ConnectError::Decode(_))
    ));
    assert!(matches!(parse_status_response(""), Err(ConnectError::Decode(_))));
    assert!(matches!(
        parse_status_response("{\"status\":\"never closed"),
        Err(ConnectError::Decode(_))
    ));
}

#[test]
fn book_address_is_selected_by_product_id() {
    let addrs = vec!["0xaa".to_string(), "0xbb".to_string(), "0xcc".to_string()];
    assert_eq!(select_book_address(&addrs, 1).unwrap(), "0xbb");
    assert!(matches!(
        select_book_address(&addrs, 3),
        Err(ConnectError::Protocol(_))
    ));
}

#[test]
fn place_order_without_order_field_is_a_protocol_error() {
    let client = test_client();
    let request = PlaceOrderRequest { product_id: 2, order: None, id: 7 };
    let r = client.prepare_place_order(
        &request,
        "0x0000000000000000000000000000000000000002",
        1,
        2,
    );
    assert!(matches!(r, Err(ConnectError::Protocol(_))));
}

#[test]
fn place_order_builds_a_signed_frame() {
    let client = test_client();
    let request = PlaceOrderRequest {
        product_id: 2,
        order: Some(OrderRequest {
            sender: "0xabcdef0123456789abcdef0123456789abcdef01".to_string(),
            price_x18: "25000000000000000000000".to_string(),
            amount: "-1000000000000000000".to_string(),
        }),
        id: 7,
    };
    let nonce: u64 = 1782035491356344296;
    let expiration: u64 = 1700001000;
    let m = client
        .prepare_place_order(
            &request,
            "0x0000000000000000000000000000000000000002",
            nonce,
            expiration,
        )
        .unwrap();
    let expected_sender =
        "abcdef0123456789abcdef0123456789abcdef0164656661756c740000000000";
    let prefix = format!(
        "{{\"place_order\":{{\"product_id\":2,\"order\":{{\"sender\":\"{}\",\"priceX18\":\"25000000000000000000000\",\"amount\":\"-1000000000000000000\",\"expiration\":\"1700001000\",\"nonce\":\"1782035491356344296\"}},\"signature\":\"0x",
        expected_sender
    );
    assert!(m.starts_with(&prefix));
    assert!(m.ends_with("\",\"id\":7}}"));
}

#[test]
fn validation_happens_before_any_gateway_traffic() {
    let client = test_client();
    let missing = PlaceOrderRequest { product_id: 2, order: None, id: 7 };
    assert!(matches!(
        client.validate_place_order(&missing),
        Err(ConnectError::Protocol(_))
    ));
    let bad_number = PlaceOrderRequest {
        product_id: 2,
        order: Some(OrderRequest {
            sender: "0xabcdef0123456789abcdef0123456789abcdef01".to_string(),
            price_x18: "ten".to_string(),
            amount: "1".to_string(),
        }),
        id: 7,
    };
    assert!(matches!(
        client.validate_place_order(&bad_number),
        Err(ConnectError::Protocol(_))
    ));
    let bad_sender = PlaceOrderRequest {
        product_id: 2,
        order: Some(OrderRequest {
            sender: "0xnothex".to_string(),
            price_x18: "1".to_string(),
            amount: "1".to_string(),
        }),
        id: 7,
    };
    assert!(matches!(
        client.validate_place_order(&bad_sender),
        Err(ConnectError::Signing(_))
    ));
    let good = PlaceOrderRequest {
        product_id: 2,
        order: Some(OrderRequest {
            sender: "0xabcdef0123456789abcdef0123456789abcdef01".to_string(),
            price_x18: "1".to_string(),
            amount: "-1".to_string(),
        }),
        id: 7,
    };
    assert!(client.validate_place_order(&good).is_ok());
}

#[test]
fn place_order_rejects_bad_amounts() {
    let client = test_client();
    let request = PlaceOrderRequest {
        product_id: 2,
        order: Some(OrderRequest {
            sender: "0xabcdef0123456789abcdef0123456789abcdef01".to_string(),
            price_x18: "not a number".to_string(),
            amount: "1".to_string(),
        }),
        id: 7,
    };
    let r = client.prepare_place_order(
        &request,
        "0x0000000000000000000000000000000000000002",
        1,
        2,
    );
    assert!(matches!(r, Err(ConnectError::Protocol(_))));
}
