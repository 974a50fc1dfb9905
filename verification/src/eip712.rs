use vstd::prelude::*;
use vstd::string::StringExecFns;
use vstd::utf8::encode_utf8;

use crate::errors::ConnectError;
use crate::type_conv::{hex_decode, strip_0x_prefix};

verus! {

/// The Keccak-256 digest of a byte sequence.  The digest itself is named, not
/// spelled out; everything built on it is exact up to this name.
pub uninterp spec fn keccak_of(bytes: Seq<u8>) -> Seq<u8>;

/// Relies on alloy_primitives::keccak256: the Keccak-256 digest, 32 bytes, a
/// function of the input bytes alone.
#[verifier::external_body]
pub(crate) fn keccak(bytes: &[u8]) -> (r: Vec<u8>)
    ensures
        r@ == keccak_of(bytes@),
        r@.len() == 32,
{
    alloy_primitives::keccak256(bytes).as_slice().to_vec()
}

/// A sequence of `n` zero bytes.
pub open spec fn zero_bytes(n: nat) -> Seq<u8> {
    Seq::new(n, |i: int| 0u8)
}

/// Byte `k` (counting from the least significant) of an unsigned 128-bit
/// value.
pub open spec fn u128_byte(x: u128, k: int) -> u8 {
    ((x >> ((8 * k) as u128)) & 0xFF) as u8
}

/// The 32-byte big-endian word of an unsigned value: 16 zero bytes, then the
/// 16 bytes of the value, most significant first.
pub open spec fn u256_of_u128(x: u128) -> Seq<u8> {
    Seq::new(32, |i: int| if i < 16 { 0u8 } else { u128_byte(x, 31 - i) })
}

/// The unsigned 128-bit value whose bits are the two's-complement form of a
/// signed one.
pub open spec fn twos_u128(x: i128) -> u128 {
    if x >= 0 {
        x as u128
    } else {
        (x + 0x100000000000000000000000000000000) as u128
    }
}

/// The 32-byte big-endian two's-complement word of a signed value: 16 sign
/// bytes, then the 16 bytes of the two's-complement form.
pub open spec fn u256_of_i128(x: i128) -> Seq<u8> {
    Seq::new(
        32,
        |i: int|
            if i < 16 {
                if x < 0 {
                    0xFFu8
                } else {
                    0u8
                }
            } else {
                u128_byte(twos_u128(x), 31 - i)
            },
    )
}

proof fn lemma_mask_byte(y: u128)
    ensures
        y & 0xFF < 256,
{
    assert(y & 0xFF < 256) by (bit_vector);
}

/// The 32-byte word of an unsigned value, as the structured-data schema
/// encodes every unsigned field.
pub fn u256_word_of_u128(x: u128) -> (r: Vec<u8>)
    ensures
        r@ == u256_of_u128(x),
{
    let mut out: Vec<u8> = Vec::new();
    let mut i: usize = 0;
    while i < 16
        invariant
            i <= 16,
            out@.len() == i,
            forall|j: int| 0 <= j < i ==> out@[j] == u256_of_u128(x)[j],
        decreases 16 - i,
    {
        out.push(0u8);
        i = i + 1;
    }
    while i < 32
        invariant
            16 <= i <= 32,
            out@.len() == i,
            forall|j: int| 0 <= j < i ==> out@[j] == u256_of_u128(x)[j],
        decreases 32 - i,
    {
        let sh: u128 = (8 * (31 - i)) as u128;
        proof {
            lemma_mask_byte(x >> sh);
        }
        let b: u8 = ((x >> sh) & 0xFF) as u8;
        out.push(b);
        i = i + 1;
    }
    proof {
        assert(out@ =~= u256_of_u128(x));
    }
    out
}

/// The 32-byte word of an unsigned 64-bit field.
pub fn u256_word_of_u64(x: u64) -> (r: Vec<u8>)
    ensures
        r@ == u256_of_u128(x as u128),
{
    u256_word_of_u128(x as u128)
}

/// The 32-byte word of an unsigned 32-bit field.
pub fn u256_word_of_u32(x: u32) -> (r: Vec<u8>)
    ensures
        r@ == u256_of_u128(x as u128),
{
    u256_word_of_u128(x as u128)
}

/// The 32-byte two's-complement word of a signed 128-bit field.
pub fn u256_word_of_i128(x: i128) -> (r: Vec<u8>)
    ensures
        r@ == u256_of_i128(x),
{
    if x >= 0 {
        let ux: u128 = x as u128;
        let mut out = u256_word_of_u128(ux);
        proof {
            assert(out@ =~= u256_of_i128(x));
        }
        out
    } else {
        let mag: u128 = ((-(x + 1)) as u128) + 1;
        let ux: u128 = 0u128.wrapping_sub(mag);
        proof {
            assert(mag == -(x as int));
            assert(ux == twos_u128(x));
        }
        let mut out: Vec<u8> = Vec::new();
        let mut i: usize = 0;
        while i < 16
            invariant
                i <= 16,
                out@.len() == i,
                forall|j: int| 0 <= j < i ==> out@[j] == 0xFFu8,
            decreases 16 - i,
        {
            out.push(0xFFu8);
            i = i + 1;
        }
        while i < 32
            invariant
                16 <= i <= 32,
                out@.len() == i,
                forall|j: int| 0 <= j < 16 ==> out@[j] == 0xFFu8,
                forall|j: int| 16 <= j < i ==> out@[j] == u128_byte(ux, 31 - j),
            decreases 32 - i,
        {
            let sh: u128 = (8 * (31 - i)) as u128;
            proof {
                lemma_mask_byte(ux >> sh);
            }
            let b: u8 = ((ux >> sh) & 0xFF) as u8;
            out.push(b);
            i = i + 1;
        }
        proof {
            assert(out@ =~= u256_of_i128(x));
        }
        out
    }
}

/// The signing domain: protocol name and version, chain id, and the contract
/// the signature is bound to.  Fields are immutable once constructed.
#[derive(Debug, Clone, PartialEq, Eq)]
pub struct Domain {
    pub name: String,
    pub version: String,
    pub chain_id: u64,
    pub verifying_contract: Vec<u8>,
}

impl Domain {
    /// Well-formed exactly when the verifying contract is a 20-byte address.
    pub open spec fn wf(&self) -> bool {
        self.verifying_contract@.len() == 20
    }
}

/// The bytes hashed into a domain separator: the domain type hash, the name
/// and version hashes, the chain id word, and the zero-padded contract
/// address.
pub open spec fn domain_separator_preimage(d: Domain) -> Seq<u8> {
    keccak_of(
        encode_utf8(
            "EIP712Domain(string name,string version,uint256 chainId,address verifyingContract)"@,
        ),
    ) + keccak_of(encode_utf8(d.name@)) + keccak_of(encode_utf8(d.version@)) + u256_of_u128(
        d.chain_id as u128,
    ) + zero_bytes(12) + d.verifying_contract@
}

/// The domain separator: the hash binding a signature to this name, version,
/// chain and contract.
pub open spec fn domain_separator_spec(d: Domain) -> Seq<u8> {
    keccak_of(domain_separator_preimage(d))
}

/// Hashes a domain into its separator.
pub fn domain_separator(d: &Domain) -> (r: Vec<u8>)
    ensures
        r@ == domain_separator_spec(*d),
        r@.len() == 32,
{
    let type_hash = keccak(
        "EIP712Domain(string name,string version,uint256 chainId,address verifyingContract)"
            .as_bytes(),
    );
    let name_hash = keccak(d.name.as_str().as_bytes());
    let version_hash = keccak(d.version.as_str().as_bytes());
    let chain_word = u256_word_of_u64(d.chain_id);
    let mut enc: Vec<u8> = Vec::new();
    enc.extend_from_slice(type_hash.as_slice());
    enc.extend_from_slice(name_hash.as_slice());
    enc.extend_from_slice(version_hash.as_slice());
    enc.extend_from_slice(chain_word.as_slice());
    let mut i: usize = 0;
    let ghost before_pad = enc@;
    while i < 12
        invariant
            i <= 12,
            enc@ =~= before_pad + zero_bytes(i as nat),
        decreases 12 - i,
    {
        enc.push(0u8);
        proof {
            assert(before_pad + zero_bytes((i + 1) as nat) =~= (before_pad + zero_bytes(
                i as nat,
            )).push(0u8));
        }
        i = i + 1;
    }
    enc.extend_from_slice(d.verifying_contract.as_slice());
    proof {
        assert(enc@ =~= domain_separator_preimage(*d));
    }
    keccak(enc.as_slice())
}

/// Whether a hex string (an optional "0x" prefix removed) denotes exactly a
/// 20-byte contract address.
pub open spec fn valid_contract_hex(s: Seq<char>) -> bool {
    crate::type_conv::is_hex_str(crate::type_conv::strip_0x(s))
        && crate::type_conv::hex_decode_seq(crate::type_conv::strip_0x(s)).len() == 20
}

/// Builds the signing domain for this exchange: decodes the hex contract
/// address, which must be exactly 20 bytes, and fixes the protocol's name and
/// version constants.  Fails with a signing error on a malformed address.
pub fn create_domain(contract_address: &str, chain_id: u64) -> (r: Result<Domain, ConnectError>)
    ensures
        r matches Ok(d) ==> {
            &&& d.wf()
            &&& d.name@ == "Vertex"@
            &&& d.version@ == "0.0.1"@
            &&& d.chain_id == chain_id
            &&& crate::type_conv::is_hex_str(crate::type_conv::strip_0x(contract_address@))
            &&& d.verifying_contract@ == crate::type_conv::hex_decode_seq(
                crate::type_conv::strip_0x(contract_address@),
            )
        },
        r is Ok <==> valid_contract_hex(contract_address@),
        r matches Err(e) ==> e is Signing,
{
    let stripped = strip_0x_prefix(contract_address);
    let decoded = match hex_decode(stripped) {
        Some(v) => v,
        None => {
            return Err(
                ConnectError::Signing(String::from_str("contract address is not well-formed hex")),
            );
        },
    };
    if decoded.len() != 20 {
        return Err(ConnectError::Signing(String::from_str("contract address must be 20 bytes")));
    }
    Ok(
        Domain {
            name: String::from_str("Vertex"),
            version: String::from_str("0.0.1"),
            chain_id,
            verifying_contract: decoded,
        },
    )
}

} // verus!
