use vstd::prelude::*;
use vstd::string::StringExecFns;

use crate::errors::ConnectError;

verus! {

/// Skew added to the wall-clock milliseconds before shifting, as the exchange
/// tolerates a nonce slightly ahead of its own clock.
pub const NONCE_SKEW_MS: u64 = 5000;

/// The fixed low-order value that disambiguates same-millisecond calls.  The
/// low 20-bit field is configurable in principle; this build uses a constant.
pub const NONCE_LOW_BITS: u64 = 1000;

/// One past the largest value the low 20-bit nonce field can hold.
pub const NONCE_LOW_SPAN: u64 = 0x100000;

/// One past the largest millisecond reading for which the shifted nonce still
/// fits in 64 bits.
pub const NONCE_MS_LIMIT: u64 = 0xFFFFFFFFFFF - NONCE_SKEW_MS;

/// One past the largest 62-bit deadline an expiration can carry.
pub const EXPIRATION_DEADLINE_SPAN: u64 = 0x4000000000000000;

/// The nonce value for a millisecond reading and a low-order value: the
/// skewed milliseconds in the high 44 bits, the low value in the low 20.
pub open spec fn nonce_spec(now_ms: u64, low: u64) -> u64
    recommends
        low < NONCE_LOW_SPAN,
        now_ms < NONCE_MS_LIMIT,
{
    (((now_ms + NONCE_SKEW_MS) * NONCE_LOW_SPAN) + low) as u64
}

/// The expiration value for a deadline and an order type: the deadline in the
/// low 62 bits, the order type in the high 2.
pub open spec fn expiration_spec(deadline_s: u64, order_type: u8) -> u64
    recommends
        deadline_s < EXPIRATION_DEADLINE_SPAN,
        order_type <= 3,
{
    (deadline_s + (order_type as u64) * EXPIRATION_DEADLINE_SPAN) as u64
}

/// The order type held in an expiration's high 2 bits.
pub open spec fn decode_order_type_spec(expiration: u64) -> u8 {
    (expiration / EXPIRATION_DEADLINE_SPAN) as u8
}

/// The deadline held in an expiration's low 62 bits.
pub open spec fn decode_deadline_spec(expiration: u64) -> u64 {
    expiration % EXPIRATION_DEADLINE_SPAN
}

/// Builds a nonce from a millisecond clock reading and a low-order value,
/// exactly as the exchange's replay-protection rule asks: skewed milliseconds
/// shifted left 20 bits, the low value in the freed bits.
pub fn nonce_from_millis(now_ms: u64, low: u64) -> (r: u64)
    requires
        low < NONCE_LOW_SPAN,
        now_ms < NONCE_MS_LIMIT,
    ensures
        r == nonce_spec(now_ms, low),
{
    let shifted = (now_ms + NONCE_SKEW_MS) << 20u64;
    proof {
        assert(shifted == ((now_ms + NONCE_SKEW_MS) as u64) * 0x100000) by (bit_vector)
            requires
                now_ms + NONCE_SKEW_MS <= 0xFFFFFFFFFFFu64 && shifted == ((now_ms + NONCE_SKEW_MS)
                    as u64) << 20u64,
        ;
    }
    shifted + low
}

/// Nonces made from strictly increasing clock readings are strictly
/// increasing, whatever low-order values fill their 20-bit fields.
pub proof fn lemma_nonce_monotonic(ms1: u64, low1: u64, ms2: u64, low2: u64)
    requires
        ms1 < ms2,
        ms2 < NONCE_MS_LIMIT,
        low1 < NONCE_LOW_SPAN,
        low2 < NONCE_LOW_SPAN,
    ensures
        nonce_spec(ms1, low1) < nonce_spec(ms2, low2),
{
    assert((ms1 + NONCE_SKEW_MS) * NONCE_LOW_SPAN + NONCE_LOW_SPAN <= (ms2 + NONCE_SKEW_MS)
        * NONCE_LOW_SPAN) by (nonlinear_arith)
        requires
            ms1 < ms2,
    ;
}

/// The low 20 bits of a nonce hold exactly the low-order value it was built
/// from: it never overflows into the timestamp bits.
pub proof fn lemma_nonce_low_bits(now_ms: u64, low: u64)
    requires
        low < NONCE_LOW_SPAN,
        now_ms < NONCE_MS_LIMIT,
    ensures
        nonce_spec(now_ms, low) % NONCE_LOW_SPAN == low,
        nonce_spec(now_ms, low) / NONCE_LOW_SPAN == now_ms + NONCE_SKEW_MS,
{
    let m: int = now_ms + NONCE_SKEW_MS;
    let span: int = NONCE_LOW_SPAN as int;
    assert((m * span + low) % span == low && (m * span + low) / span == m) by (nonlinear_arith)
        requires
            low < span,
            0 <= m,
            span == 0x100000,
    ;
}

/// Reads the wall clock as milliseconds since the Unix epoch.
///
/// Relies on std::time::SystemTime::now and Duration::as_millis; a clock
/// before the epoch reads as zero.  Nothing is assumed of the value.
#[verifier::external_body]
fn now_millis() -> u64 {
    match std::time::SystemTime::now().duration_since(std::time::UNIX_EPOCH) {
        Ok(d) => d.as_millis() as u64,
        Err(_) => 0,
    }
}

/// Reads the wall clock as whole seconds since the Unix epoch.
///
/// Relies on std::time::SystemTime::now and Duration::as_secs; a clock before
/// the epoch reads as zero.  Nothing is assumed of the value.
#[verifier::external_body]
fn now_secs() -> u64 {
    match std::time::SystemTime::now().duration_since(std::time::UNIX_EPOCH) {
        Ok(d) => d.as_secs(),
        Err(_) => 0,
    }
}

/// Builds a fresh nonce from the wall clock.  `None` only when the clock
/// reading is so large that the shifted value would not fit in 64 bits.
pub fn next_nonce() -> (r: Option<u64>)
    ensures
        r matches Some(v) ==> v % NONCE_LOW_SPAN == NONCE_LOW_BITS,
{
    let ms = now_millis();
    if ms < NONCE_MS_LIMIT {
        let n = nonce_from_millis(ms, NONCE_LOW_BITS);
        proof {
            lemma_nonce_low_bits(ms, NONCE_LOW_BITS);
        }
        Some(n)
    } else {
        None
    }
}

/// Combines a deadline with an order type: the deadline in the low 62 bits,
/// the order type shifted into the high 2.
pub fn encode_expiration(deadline_s: u64, order_type: u8) -> (r: u64)
    requires
        deadline_s < EXPIRATION_DEADLINE_SPAN,
        order_type <= 3,
    ensures
        r == expiration_spec(deadline_s, order_type),
{
    let bits = (order_type as u64) << 62u64;
    let r = deadline_s | bits;
    proof {
        let ot = order_type as u64;
        assert(bits == ot * 0x4000000000000000 && (deadline_s | bits) == deadline_s + ot
            * 0x4000000000000000) by (bit_vector)
            requires
                ot <= 3u64 && deadline_s < 0x4000000000000000u64 && bits == ot << 62u64,
        ;
    }
    r
}

/// The order type held in an expiration's high 2 bits.
pub fn decode_order_type(expiration: u64) -> (r: u8)
    ensures
        r == decode_order_type_spec(expiration),
{
    let shifted = expiration >> 62u64;
    proof {
        assert(shifted < 4 && shifted == expiration / 0x4000000000000000u64) by (bit_vector)
            requires
                shifted == expiration >> 62u64,
        ;
    }
    shifted as u8
}

/// The deadline held in an expiration's low 62 bits.
pub fn decode_deadline(expiration: u64) -> (r: u64)
    ensures
        r == decode_deadline_spec(expiration),
{
    let masked = expiration & 0x3FFFFFFFFFFFFFFF;
    proof {
        assert(masked == expiration % 0x4000000000000000u64) by (bit_vector)
            requires
                masked == expiration & 0x3FFFFFFFFFFFFFFFu64,
        ;
    }
    masked
}

/// For every order type in {0,1,2,3} and every deadline that fits in 62 bits,
/// decoding an encoded expiration returns the order type and the deadline
/// unchanged.
pub proof fn lemma_expiration_round_trip(deadline_s: u64, order_type: u8)
    requires
        deadline_s < EXPIRATION_DEADLINE_SPAN,
        order_type <= 3,
    ensures
        decode_order_type_spec(expiration_spec(deadline_s, order_type)) == order_type,
        decode_deadline_spec(expiration_spec(deadline_s, order_type)) == deadline_s,
{
    let ot = order_type as u64;
    assert((deadline_s + ot * 0x4000000000000000) / 0x4000000000000000 == ot && (deadline_s + ot
        * 0x4000000000000000) % 0x4000000000000000 == deadline_s) by (nonlinear_arith)
        requires
            deadline_s < 0x4000000000000000u64,
            ot <= 3u64,
    ;
}

/// An expiration `ttl_seconds` from now, carrying the order type in its high
/// bits.  Rejects an order type above 3 as a protocol defect; fails too when
/// the deadline would not fit in 62 bits.
pub fn generate_expiration_time(seconds_from_now: u64, order_type: u8) -> (r: Result<
    u64,
    ConnectError,
>)
    ensures
        order_type > 3 ==> (r matches Err(e) && e is Protocol),
        r matches Ok(v) ==> order_type <= 3 && decode_order_type_spec(v) == order_type,
        r matches Err(e) ==> e is Protocol,
{
    if order_type > 3 {
        return Err(ConnectError::Protocol(String::from_str("order type must be 0, 1, 2 or 3")));
    }
    let now = now_secs();
    let deadline = match now.checked_add(seconds_from_now) {
        Some(d) => d,
        None => {
            return Err(
                ConnectError::Protocol(String::from_str("expiration deadline does not fit")),
            );
        },
    };
    if deadline >= EXPIRATION_DEADLINE_SPAN {
        return Err(ConnectError::Protocol(String::from_str("expiration deadline does not fit")));
    }
    let r = encode_expiration(deadline, order_type);
    proof {
        lemma_expiration_round_trip(deadline, order_type);
    }
    Ok(r)
}

} // verus!
