use vertex_connector::{
    auth_payload, create_domain, domain_separator, hex_decode, signing_hash, struct_hash,
    vec_to_fixed_bytes32, EthSigner, SerializableStreamAuthentication, Signer, StreamAuthentication,
    StructuredTransaction,
};

const TEST_KEY: &str = "0000000000000000000000000000000000000000000000000000000000000001";
const TEST_CONTRACT: &str = "0x0000000000000000000000000000000000000001";
const TEST_CHAIN_ID: u64 = 421613;

fn is_lower_hex(s: &str) -> bool {
    s.chars().all(|c| c.is_ascii_digit() || ('a'..='f').contains(&c))
}

#[test]
fn keccak_of_zero_word_matches_known_digest() {
    let signer = EthSigner::new(TEST_KEY).unwrap();
    let zeros = vec_to_fixed_bytes32(vec![0u8; 32]).unwrap();
    assert_eq!(
        signer.generate_digest(&zeros),
        "0x290decd9548b62a8d60345a988386fc84ba6bc95484008f6362f93160ef3e563"
    );
}

#[test]
fn malformed_keys_are_rejected() {
    assert!(EthSigner::new("nothex").is_err());
    assert!(EthSigner::new("00").is_err());
    let zero_key = "00".repeat(32);
    assert!(EthSigner::new(&zero_key).is_err());
}

#[test]
fn signature_is_0x_and_130_hex_chars() {
    let signer = EthSigner::new(TEST_KEY).unwrap();
    let sig = signer.generate_signature(&[7u8; 32]).unwrap();
    assert_eq!(sig.len(), 132);
    assert!(sig.starts_with("0x"));
    assert!(is_lower_hex(&sig[2..]));
}

#[test]
fn signature_recovers_to_the_signing_key() {
    let signer = EthSigner::new(TEST_KEY).unwrap();
    let message = [7u8; 32];
    let sig = signer.generate_signature(&message).unwrap();
    let bytes = hex_decode(&sig[2..]).unwrap();
    let mut r = [0u8; 32];
    r.copy_from_slice(&bytes[0..32]);
    let mut s = [0u8; 32];
    s.copy_from_slice(&bytes[32..64]);
    let v = bytes[64] - 27;
    let recovered = ethsign::Signature { v, r, s }.recover(&message).unwrap();
    let key_bytes = hex_decode(TEST_KEY).unwrap();
    let expected = ethsign::SecretKey::from_raw(&key_bytes).unwrap().public();
    assert_eq!(recovered.address(), expected.address());
}

#[test]
fn create_domain_fixes_name_and_version() {
    let d = create_domain(TEST_CONTRACT, TEST_CHAIN_ID).unwrap();
    assert_eq!(d.name, "Vertex");
    assert_eq!(d.version, "0.0.1");
    assert_eq!(d.chain_id, TEST_CHAIN_ID);
    assert_eq!(d.verifying_contract.len(), 20);
    assert_eq!(d.verifying_contract[19], 1);
}

#[test]
fn create_domain_rejects_wrong_length_addresses() {
    assert!(create_domain("0x0001", TEST_CHAIN_ID).is_err());
    assert!(create_domain("zz", TEST_CHAIN_ID).is_err());
}

#[test]
fn signing_hash_is_deterministic() {
    let d = create_domain(TEST_CONTRACT, TEST_CHAIN_ID).unwrap();
    let tx = StructuredTransaction::StreamAuthentication(StreamAuthentication {
        sender: vec_to_fixed_bytes32(vec![3u8; 32]).unwrap(),
        expiration: 1_700_000_000_000,
    });
    let h1 = signing_hash(&tx, &d);
    let h2 = signing_hash(&tx, &d);
    assert_eq!(h1, h2);
    assert_eq!(h1.len(), 32);
}

#[test]
fn signing_hash_matches_direct_computation() {
    let d = create_domain(TEST_CONTRACT, TEST_CHAIN_ID).unwrap();
    let sender = vec_to_fixed_bytes32(vec![3u8; 32]).unwrap();
    let expiration: u64 = 1_700_000_000_000;
    let tx = StructuredTransaction::StreamAuthentication(StreamAuthentication {
        sender: sender.clone(),
        expiration,
    });

    let type_hash = alloy_primitives::keccak256(
        "StreamAuthentication(bytes32 sender,uint64 expiration)".as_bytes(),
    );
    let mut expiration_word = [0u8; 32];
    expiration_word[24..32].copy_from_slice(&expiration.to_be_bytes());
    let mut enc = Vec::new();
    enc.extend_from_slice(type_hash.as_slice());
    enc.extend_from_slice(&sender.bytes);
    enc.extend_from_slice(&expiration_word);
    let expected_struct_hash = alloy_primitives::keccak256(&enc);
    assert_eq!(struct_hash(&tx), expected_struct_hash.as_slice());

    let domain_type_hash = alloy_primitives::keccak256(
        "EIP712Domain(string name,string version,uint256 chainId,address verifyingContract)"
            .as_bytes(),
    );
    let mut chain_word = [0u8; 32];
    chain_word[24..32].copy_from_slice(&TEST_CHAIN_ID.to_be_bytes());
    let mut contract_word = [0u8; 32];
    contract_word[12..32].copy_from_slice(&d.verifying_contract);
    let mut denc = Vec::new();
    denc.extend_from_slice(domain_type_hash.as_slice());
    denc.extend_from_slice(alloy_primitives::keccak256("Vertex".as_bytes()).as_slice());
    denc.extend_from_slice(alloy_primitives::keccak256("0.0.1".as_bytes()).as_slice());
    denc.extend_from_slice(&chain_word);
    denc.extend_from_slice(&contract_word);
    let expected_separator = alloy_primitives::keccak256(&denc);
    assert_eq!(domain_separator(&d), expected_separator.as_slice());

    let mut senc = Vec::new();
    senc.extend_from_slice(&[0x19, 0x01]);
    senc.extend_from_slice(expected_separator.as_slice());
    senc.extend_from_slice(expected_struct_hash.as_slice());
    let expected_signing_hash = alloy_primitives::keccak256(&senc);
    assert_eq!(signing_hash(&tx, &d), expected_signing_hash.as_slice());
}

#[test]
fn order_signing_uses_twos_complement_words() {
    let d = create_domain(TEST_CONTRACT, TEST_CHAIN_ID).unwrap();
    let order = vertex_connector::Order {
        sender: vec_to_fixed_bytes32(vec![3u8; 32]).unwrap(),
        price_x18: -1_000_000_000_000_000_000,
        amount: 2_000_000_000_000_000_000,
        expiration: 1_700_000_000,
        nonce: 99,
    };
    let tx = StructuredTransaction::Order(order.clone());

    let type_hash = alloy_primitives::keccak256(
        "Order(bytes32 sender,int128 priceX18,int128 amount,uint64 expiration,uint64 nonce)"
            .as_bytes(),
    );
    let word_i128 = |x: i128| -> [u8; 32] {
        let mut w = if x < 0 { [0xffu8; 32] } else { [0u8; 32] };
        w[16..32].copy_from_slice(&x.to_be_bytes());
        w
    };
    let word_u64 = |x: u64| -> [u8; 32] {
        let mut w = [0u8; 32];
        w[24..32].copy_from_slice(&x.to_be_bytes());
        w
    };
    let mut enc = Vec::new();
    enc.extend_from_slice(type_hash.as_slice());
    enc.extend_from_slice(&order.sender.bytes);
    enc.extend_from_slice(&word_i128(order.price_x18));
    enc.extend_from_slice(&word_i128(order.amount));
    enc.extend_from_slice(&word_u64(order.expiration));
    enc.extend_from_slice(&word_u64(order.nonce));
    let expected = alloy_primitives::keccak256(&enc);
    assert_eq!(struct_hash(&tx), expected.as_slice());
}

#[test]
fn auth_scenario_produces_the_expected_frame() {
    let signer = Signer::new(TEST_KEY, TEST_CONTRACT, TEST_CHAIN_ID).unwrap();
    let sender_hex = "abcdef0123456789abcdef0123456789abcdef01";
    let sender = vertex_connector::hex_to_fixed_bytes32(sender_hex).unwrap();
    let tx = StreamAuthentication { sender, expiration: 1_700_000_000_000 };
    let ser = SerializableStreamAuthentication::from(&tx);
    let sig = signer
        .sign_transaction(&StructuredTransaction::StreamAuthentication(tx))
        .unwrap();
    let payload = auth_payload(&ser, &sig);

    assert_eq!(sig.len(), 132);
    assert!(sig.starts_with("0x"));
    assert!(is_lower_hex(&sig[2..]));
    let expected_sender = format!("{}{}", sender_hex, "0".repeat(24));
    let expected = format!(
        "{{\"method\":\"authenticate\",\"id\":0,\"tx\":{{\"sender\":\"{}\",\"expiration\":\"1700000000000\"}},\"signature\":\"{}\"}}",
        expected_sender, sig
    );
    assert_eq!(payload, expected);
}
