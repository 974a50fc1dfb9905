use vstd::prelude::*;
use vstd::string::StringExecFns;

use crate::eip712::{keccak, keccak_of};
use crate::errors::ConnectError;
use crate::type_conv::{hex_decode, hex_decode_seq, hex_encode, hex_seq, is_hex_str, Bytes32};

verus! {

#[verifier::external_type_specification]
#[verifier::external_body]
pub struct ExSecretKey(ethsign::SecretKey);

/// The value of a byte sequence read as a big-endian unsigned integer.
pub open spec fn bytes_be_val(s: Seq<u8>) -> nat
    decreases s.len(),
{
    if s.len() == 0 {
        0
    } else {
        (bytes_be_val(s.drop_last()) * 256 + s.last() as nat) as nat
    }
}

/// The order of the secp256k1 curve: a 32-byte secret is accepted exactly
/// when, read as a big-endian integer, it lies strictly between zero and
/// this value.
pub open spec fn secp256k1_order() -> nat {
    ((0xFFFFFFFFFFFFFFFFFFFFFFFFFFFFFFFEu128 as nat) * (u128::MAX as nat + 1)
        + (0xBAAEDCE6AF48A03BBFD25E8CD0364141u128 as nat)) as nat
}

/// Whether the curve library accepts a byte slice as a secret: exactly 32
/// bytes, strictly between zero and the curve order.
pub open spec fn accepted_secret(bytes: Seq<u8>) -> bool {
    &&& bytes.len() == 32
    &&& 0 < bytes_be_val(bytes)
    &&& bytes_be_val(bytes) < secp256k1_order()
}

/// Whether a hex string denotes a secret the curve library accepts: 64 hex
/// characters whose 32 bytes lie in the curve's valid range.
pub open spec fn valid_private_key(key_hex: Seq<char>) -> bool {
    is_hex_str(key_hex) && accepted_secret(hex_decode_seq(key_hex))
}

/// Relies on ethsign::SecretKey::from_raw, which validates the secret with
/// the curve library: exactly the 32-byte slices whose big-endian value lies
/// strictly between zero and the curve order are accepted.
#[verifier::external_body]
fn secret_key_from_raw(bytes: &[u8]) -> (r: Option<ethsign::SecretKey>)
    ensures
        r is Some <==> accepted_secret(bytes@),
{
    ethsign::SecretKey::from_raw(bytes).ok()
}

/// Relies on ethsign::SecretKey::sign: an ECDSA signature over a 32-byte
/// message, returned as the 32-byte `r` and `s` values and a recovery id
/// below 4.  A message of any other length is rejected; on a 32-byte message
/// the call does not fail, since every key this type can hold was validated
/// by the curve library at construction.
#[verifier::external_body]
fn secret_key_sign(key: &ethsign::SecretKey, message: &[u8]) -> (r: Option<(Vec<u8>, Vec<u8>, u8)>)
    ensures
        r is Some <==> message@.len() == 32,
        r matches Some(t) ==> t.0@.len() == 32 && t.1@.len() == 32 && t.2 <= 3,
{
    match key.sign(message) {
        Ok(sig) => Some((sig.r.to_vec(), sig.s.to_vec(), sig.v)),
        Err(_) => None,
    }
}

/// The exchange's signature string for ECDSA values `r`, `s` and recovery id
/// `v`: "0x", then the 65 bytes `r ++ s ++ (v + 27)` in lower-case hex.
pub open spec fn sig_string_of(r: Seq<u8>, s: Seq<u8>, v: u8) -> Seq<char>
    recommends
        v <= 3,
{
    "0x"@ + hex_seq(r + s + seq![(v + 27) as u8])
}

/// Whether a character sequence has the shape of an exchange signature made
/// from 32-byte `r` and `s` values and a recovery id below 4.
pub open spec fn is_sig_string(sig: Seq<char>) -> bool {
    exists|r: Seq<u8>, s: Seq<u8>, v: u8|
        r.len() == 32 && s.len() == 32 && v <= 3 && sig == #[trigger] sig_string_of(r, s, v)
}

/// A signature string made from 32-byte values is "0x" followed by 130 hex
/// characters.
pub proof fn lemma_sig_string_len(r: Seq<u8>, s: Seq<u8>, v: u8)
    requires
        r.len() == 32,
        s.len() == 32,
    ensures
        sig_string_of(r, s, v).len() == 2 + 130,
        sig_string_of(r, s, v).subrange(0, 2) =~= "0x"@,
{
    reveal_strlit("0x");
    crate::type_conv::lemma_hex_seq_len(r + s + seq![(v + 27) as u8]);
}

/// Concatenates ECDSA signature parts into the exchange's hex form, the
/// recovery id adjusted by its convention.
fn assemble_signature(r: &Vec<u8>, s: &Vec<u8>, v: u8) -> (out: String)
    requires
        r@.len() == 32,
        s@.len() == 32,
        v <= 3,
    ensures
        out@ == sig_string_of(r@, s@, v),
{
    let mut bytes: Vec<u8> = Vec::new();
    bytes.extend_from_slice(r.as_slice());
    bytes.extend_from_slice(s.as_slice());
    bytes.push(v + 27);
    proof {
        assert(bytes@ =~= r@ + s@ + seq![(v + 27) as u8]);
    }
    let mut out = String::from_str("0x");
    let hex = hex_encode(bytes.as_slice());
    out.append(hex.as_str());
    out
}

/// Holds a validated private key and signs 32-byte hashes with it.
#[derive(Debug)]
pub struct EthSigner {
    private_key: ethsign::SecretKey,
}

impl EthSigner {
    /// Parses a hex private key (no "0x" prefix) and validates it with the
    /// curve library: construction succeeds exactly on a well-formed hex key
    /// the curve accepts.  A malformed key is a signing error, never a
    /// silent default.
    pub fn new(private_key_hex: &str) -> (r: Result<EthSigner, ConnectError>)
        ensures
            r is Ok <==> valid_private_key(private_key_hex@),
            r matches Err(e) ==> e is Signing,
    {
        let key_bytes = match hex_decode(private_key_hex) {
            Some(v) => v,
            None => {
                return Err(
                    ConnectError::Signing(String::from_str("private key is not well-formed hex")),
                );
            },
        };
        match secret_key_from_raw(key_bytes.as_slice()) {
            Some(key) => Ok(EthSigner { private_key: key }),
            None => Err(ConnectError::Signing(String::from_str("private key is not valid"))),
        }
    }

    /// Signs a 32-byte hash: ECDSA, the recovery id adjusted by 27, the 65
    /// bytes hex-encoded behind "0x".  Signing succeeds exactly on a 32-byte
    /// hash; a wrong-length hash is a signing error, never an empty
    /// signature.
    pub fn generate_signature(&self, signing_hash: &[u8]) -> (r: Result<String, ConnectError>)
        ensures
            r is Ok <==> signing_hash@.len() == 32,
            r matches Ok(sig) ==> is_sig_string(sig@),
            r matches Err(e) ==> e is Signing,
    {
        match secret_key_sign(&self.private_key, signing_hash) {
            Some((rv, sv, v)) => Ok(assemble_signature(&rv, &sv, v)),
            None => Err(ConnectError::Signing(String::from_str("signing failed"))),
        }
    }

    /// The Keccak-256 digest of a 32-byte value, hex-encoded behind "0x".
    pub fn generate_digest(&self, signable_bytes: &Bytes32) -> (r: String)
        ensures
            r@ == "0x"@ + hex_seq(keccak_of(signable_bytes@)),
    {
        let hash = keccak(signable_bytes.bytes.as_slice());
        let mut out = String::from_str("0x");
        let hex = hex_encode(hash.as_slice());
        out.append(hex.as_str());
        out
    }
}

} // verus!
