use vertex_connector::{
    fixed_bytes_to_hex, hex_decode, hex_encode, hex_to_fixed_bytes32, i128_to_dec, make_sender_hex,
    pad_to_fixed_bytes32, parse_i128, u128_to_dec, u64_to_dec, vec_to_fixed_bytes32,
};

#[test]
fn hex_encode_lower_case() {
    assert_eq!(hex_encode(&[0x00, 0x0f, 0xab, 0xff]), "000fabff");
    assert_eq!(hex_encode(&[]), "");
}

#[test]
fn hex_decode_accepts_both_cases() {
    assert_eq!(hex_decode("000fABff").unwrap(), vec![0x00, 0x0f, 0xab, 0xff]);
    assert_eq!(hex_decode("").unwrap(), Vec::<u8>::new());
}

#[test]
fn hex_decode_rejects_odd_length_and_stray_characters() {
    assert!(hex_decode("abc").is_none());
    assert!(hex_decode("zz").is_none());
    assert!(hex_decode("0x12").is_none());
}

#[test]
fn hex_round_trips() {
    let bytes: Vec<u8> = (0u8..=255u8).collect();
    let hex = hex_encode(&bytes);
    assert_eq!(hex_decode(&hex).unwrap(), bytes);
}

#[test]
fn address_pads_to_32_bytes_and_round_trips() {
    let addr: Vec<u8> = (1u8..=20u8).collect();
    let padded = pad_to_fixed_bytes32(&addr).unwrap();
    assert_eq!(padded.bytes.len(), 32);
    assert_eq!(&padded.bytes[0..20], addr.as_slice());
    assert_eq!(&padded.bytes[20..32], &[0u8; 12]);
}

#[test]
fn pad_rejects_more_than_32_bytes() {
    let long = vec![1u8; 33];
    assert!(pad_to_fixed_bytes32(&long).is_err());
    let exact = vec![7u8; 32];
    assert_eq!(pad_to_fixed_bytes32(&exact).unwrap().bytes, exact);
}

#[test]
fn vec_to_fixed_bytes32_requires_exact_length() {
    assert!(vec_to_fixed_bytes32(vec![0u8; 31]).is_err());
    assert!(vec_to_fixed_bytes32(vec![0u8; 33]).is_err());
    assert_eq!(vec_to_fixed_bytes32(vec![5u8; 32]).unwrap().bytes, vec![5u8; 32]);
}

#[test]
fn hex_to_fixed_bytes32_strips_prefix_and_pads() {
    let b = hex_to_fixed_bytes32("0xdeadbeef").unwrap();
    assert_eq!(&b.bytes[0..4], &[0xde, 0xad, 0xbe, 0xef]);
    assert_eq!(&b.bytes[4..32], &[0u8; 28]);
    let same = hex_to_fixed_bytes32("deadbeef").unwrap();
    assert_eq!(b.bytes, same.bytes);
}

#[test]
fn hex_to_fixed_bytes32_rejects_bad_input() {
    assert!(hex_to_fixed_bytes32("xyz").is_err());
    let too_long = "00".repeat(33);
    assert!(hex_to_fixed_bytes32(&too_long).is_err());
}

#[test]
fn fixed_bytes_to_hex_is_64_chars() {
    let b = vec_to_fixed_bytes32(vec![0xabu8; 32]).unwrap();
    let h = fixed_bytes_to_hex(&b);
    assert_eq!(h.len(), 64);
    assert_eq!(h, "ab".repeat(32));
}

#[test]
fn decimal_strings_match_std_formatting() {
    assert_eq!(u64_to_dec(0), "0");
    assert_eq!(u64_to_dec(1_700_000_000_000), "1700000000000");
    assert_eq!(u64_to_dec(u64::MAX), u64::MAX.to_string());
    assert_eq!(u128_to_dec(u128::MAX), u128::MAX.to_string());
    assert_eq!(i128_to_dec(-1), "-1");
    assert_eq!(i128_to_dec(0), "0");
    assert_eq!(i128_to_dec(i128::MIN), i128::MIN.to_string());
    assert_eq!(i128_to_dec(i128::MAX), i128::MAX.to_string());
}

#[test]
fn parse_i128_round_trips() {
    for v in [0i128, 1, -1, 42, -42, i128::MAX, i128::MIN, 10i128.pow(18)] {
        assert_eq!(parse_i128(&i128_to_dec(v)).unwrap(), v);
        assert_eq!(parse_i128(&v.to_string()).unwrap(), v);
    }
}

#[test]
fn parse_i128_rejects_bad_input() {
    assert!(parse_i128("").is_err());
    assert!(parse_i128("-").is_err());
    assert!(parse_i128("12a").is_err());
    assert!(parse_i128("1.5").is_err());
    assert!(parse_i128("170141183460469231731687303715884105728").is_err());
    assert!(parse_i128("-170141183460469231731687303715884105729").is_err());
    assert_eq!(
        parse_i128("-170141183460469231731687303715884105728").unwrap(),
        i128::MIN
    );
}

#[test]
fn sender_hex_appends_subaccount_tag() {
    let r = make_sender_hex("0x1122334455667788990011223344556677889900");
    assert_eq!(r, "112233445566778899001122334455667788990064656661756c740000000000");
    assert_eq!(r.len(), 64);
    let r = make_sender_hex("1122334455667788990011223344556677889900");
    assert_eq!(r, "112233445566778899001122334455667788990064656661756c740000000000");
}

#[test]
fn sender_hex_pads_short_addresses_with_zeros() {
    let r = make_sender_hex("0xabcd");
    assert_eq!(r, format!("{:0<64}", "abcd64656661756c740000000000"));
    assert_eq!(r.len(), 64);
}
