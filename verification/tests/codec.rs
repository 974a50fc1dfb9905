use vertex_connector::{
    decode_deadline, decode_order_type, encode_expiration, generate_expiration_time, next_nonce,
    nonce_from_millis,
};

#[test]
fn expiration_round_trips_for_every_order_type() {
    for order_type in 0u8..=3u8 {
        for ttl in [0u64, 1, 1000, 86_400] {
            let now_s = 1_700_000_000u64;
            let encoded = encode_expiration(now_s + ttl, order_type);
            assert_eq!(decode_order_type(encoded), order_type);
            assert_eq!(decode_deadline(encoded), now_s + ttl);
        }
    }
}

#[test]
fn expiration_places_order_type_in_high_bits() {
    let encoded = encode_expiration(1_700_001_000, 1);
    assert_eq!(encoded, 1_700_001_000u64 | (1u64 << 62));
    let encoded = encode_expiration(1_700_001_000, 3);
    assert_eq!(encoded, 1_700_001_000u64 | (3u64 << 62));
    let encoded = encode_expiration(1_700_001_000, 0);
    assert_eq!(encoded, 1_700_001_000u64);
}

#[test]
fn generate_expiration_time_rejects_order_type_above_three() {
    let r = generate_expiration_time(1000, 4);
    assert!(r.is_err());
    let r = generate_expiration_time(1000, 255);
    assert!(r.is_err());
}

#[test]
fn generate_expiration_time_keeps_order_type() {
    let encoded = generate_expiration_time(1000, 2).unwrap();
    assert_eq!(decode_order_type(encoded), 2);
}

#[test]
fn nonce_shifts_millis_and_adds_low_part() {
    let n = nonce_from_millis(1_700_000_000_000, 1000);
    assert_eq!(n, ((1_700_000_000_000u64 + 5000) << 20) + 1000);
    assert_eq!(n % (1 << 20), 1000);
}

#[test]
fn nonces_increase_with_the_clock() {
    let a = nonce_from_millis(1_700_000_000_000, 0xFFFFF);
    let b = nonce_from_millis(1_700_000_000_001, 0);
    assert!(a < b);
}

#[test]
fn next_nonce_has_fixed_low_bits() {
    let n = next_nonce().unwrap();
    assert_eq!(n % (1 << 20), 1000);
}
