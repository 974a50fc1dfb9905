use vstd::prelude::*;
use vstd::utf8::encode_utf8;

use crate::eip712::{
    domain_separator, domain_separator_spec, keccak, keccak_of, u256_of_i128, u256_of_u128,
    u256_word_of_i128, u256_word_of_u128, u256_word_of_u32, u256_word_of_u64, Domain,
};
use crate::type_conv::Bytes32;

verus! {

/// Stream-authentication record: the 32-byte sender and a millisecond
/// deadline after which the exchange rejects the payload.
#[derive(Debug, Clone, PartialEq, Eq)]
pub struct StreamAuthentication {
    pub sender: Bytes32,
    pub expiration: u64,
}

/// Order record: sender, price scaled by 1e18, amount, expiration with the
/// order type in its high bits, and the replay-protection nonce.
#[derive(Debug, Clone, PartialEq, Eq)]
pub struct Order {
    pub sender: Bytes32,
    pub price_x18: i128,
    pub amount: i128,
    pub expiration: u64,
    pub nonce: u64,
}

/// Cancellation of specific orders by digest.
#[derive(Debug, Clone, PartialEq, Eq)]
pub struct Cancellation {
    pub sender: Bytes32,
    pub product_ids: Vec<u32>,
    pub digests: Vec<Bytes32>,
    pub nonce: u64,
}

/// Cancellation of all orders in the named products.
#[derive(Debug, Clone, PartialEq, Eq)]
pub struct CancellationProducts {
    pub sender: Bytes32,
    pub product_ids: Vec<u32>,
    pub nonce: u64,
}

/// Collateral withdrawal from one product.
#[derive(Debug, Clone, PartialEq, Eq)]
pub struct WithdrawCollateral {
    pub sender: Bytes32,
    pub product_id: u32,
    pub amount: u128,
    pub nonce: u64,
}

/// Liquidation of another subaccount.
#[derive(Debug, Clone, PartialEq, Eq)]
pub struct LiquidateSubaccount {
    pub sender: Bytes32,
    pub liquidatee: Bytes32,
    pub mode: u8,
    pub health_group: u32,
    pub amount: i128,
    pub nonce: u64,
}

/// Liquidity-pool mint.
#[derive(Debug, Clone, PartialEq, Eq)]
pub struct MintLp {
    pub sender: Bytes32,
    pub product_id: u32,
    pub amount_base: u128,
    pub quote_amount_low: u128,
    pub quote_amount_high: u128,
    pub nonce: u64,
}

/// Liquidity-pool burn.
#[derive(Debug, Clone, PartialEq, Eq)]
pub struct BurnLp {
    pub sender: Bytes32,
    pub product_id: u32,
    pub amount: u128,
    pub nonce: u64,
}

/// Delegation of signing authority to another signer.
#[derive(Debug, Clone, PartialEq, Eq)]
pub struct LinkSigner {
    pub sender: Bytes32,
    pub signer: Bytes32,
    pub nonce: u64,
}

/// The closed sum of transaction kinds the exchange accepts, one case per
/// operation, each hashed under its own type signature.
#[derive(Debug, Clone, PartialEq, Eq)]
pub enum StructuredTransaction {
    StreamAuthentication(StreamAuthentication),
    Order(Order),
    Cancellation(Cancellation),
    CancellationProducts(CancellationProducts),
    WithdrawCollateral(WithdrawCollateral),
    LiquidateSubaccount(LiquidateSubaccount),
    MintLp(MintLp),
    BurnLp(BurnLp),
    LinkSigner(LinkSigner),
}

/// Every fixed 32-byte field of the transaction actually holds 32 bytes.
pub open spec fn txn_wf(t: StructuredTransaction) -> bool {
    match t {
        StructuredTransaction::StreamAuthentication(x) => x.sender.wf(),
        StructuredTransaction::Order(x) => x.sender.wf(),
        StructuredTransaction::Cancellation(x) => x.sender.wf() && forall|i: int|
            0 <= i < x.digests@.len() ==> (#[trigger] x.digests@[i]).wf(),
        StructuredTransaction::CancellationProducts(x) => x.sender.wf(),
        StructuredTransaction::WithdrawCollateral(x) => x.sender.wf(),
        StructuredTransaction::LiquidateSubaccount(x) => x.sender.wf() && x.liquidatee.wf(),
        StructuredTransaction::MintLp(x) => x.sender.wf(),
        StructuredTransaction::BurnLp(x) => x.sender.wf(),
        StructuredTransaction::LinkSigner(x) => x.sender.wf() && x.signer.wf(),
    }
}

/// The type signature hashed into each variant's struct hash; it must match
/// the exchange's published schema character for character.
pub open spec fn type_str(t: StructuredTransaction) -> Seq<char> {
    match t {
        StructuredTransaction::StreamAuthentication(_) => "StreamAuthentication(bytes32 sender,uint64 expiration)"@,
        StructuredTransaction::Order(_) => "Order(bytes32 sender,int128 priceX18,int128 amount,uint64 expiration,uint64 nonce)"@,
        StructuredTransaction::Cancellation(_) => "Cancellation(bytes32 sender,uint32[] productIds,bytes32[] digests,uint64 nonce)"@,
        StructuredTransaction::CancellationProducts(_) => "CancellationProducts(bytes32 sender,uint32[] productIds,uint64 nonce)"@,
        StructuredTransaction::WithdrawCollateral(_) => "WithdrawCollateral(bytes32 sender,uint32 productId,uint128 amount,uint64 nonce)"@,
        StructuredTransaction::LiquidateSubaccount(_) => "LiquidateSubaccount(bytes32 sender,bytes32 liquidatee,uint8 mode,uint32 healthGroup,int128 amount,uint64 nonce)"@,
        StructuredTransaction::MintLp(_) => "MintLp(bytes32 sender,uint32 productId,uint128 amountBase,uint128 quoteAmountLow,uint128 quoteAmountHigh,uint64 nonce)"@,
        StructuredTransaction::BurnLp(_) => "BurnLp(bytes32 sender,uint32 productId,uint128 amount,uint64 nonce)"@,
        StructuredTransaction::LinkSigner(_) => "LinkSigner(bytes32 sender,bytes32 signer,uint64 nonce)"@,
    }
}

/// The packed 32-byte words of a dynamic `uint32[]` field's elements.
pub open spec fn words_of_u32s(v: Seq<u32>) -> Seq<u8>
    decreases v.len(),
{
    if v.len() == 0 {
        Seq::empty()
    } else {
        u256_of_u128(v[0] as u128) + words_of_u32s(v.drop_first())
    }
}

/// The packed words of a dynamic `bytes32[]` field's elements.
pub open spec fn words_of_b32s(v: Seq<Seq<u8>>) -> Seq<u8>
    decreases v.len(),
{
    if v.len() == 0 {
        Seq::empty()
    } else {
        v[0] + words_of_b32s(v.drop_first())
    }
}

proof fn lemma_words_of_u32s_snoc(v: Seq<u32>, x: u32)
    ensures
        words_of_u32s(v.push(x)) =~= words_of_u32s(v) + u256_of_u128(x as u128),
    decreases v.len(),
{
    if v.len() == 0 {
        assert(v.push(x).drop_first() =~= Seq::<u32>::empty());
        assert(v.push(x)[0] == x);
        assert(words_of_u32s(v.push(x)) =~= u256_of_u128(x as u128) + words_of_u32s(
            Seq::<u32>::empty(),
        ));
    } else {
        assert(v.push(x).drop_first() =~= v.drop_first().push(x));
        assert(v.push(x)[0] == v[0]);
        lemma_words_of_u32s_snoc(v.drop_first(), x);
        assert(words_of_u32s(v.push(x)) =~= u256_of_u128(v[0] as u128) + (words_of_u32s(
            v.drop_first(),
        ) + u256_of_u128(x as u128)));
    }
}

proof fn lemma_words_of_b32s_snoc(v: Seq<Seq<u8>>, x: Seq<u8>)
    ensures
        words_of_b32s(v.push(x)) =~= words_of_b32s(v) + x,
    decreases v.len(),
{
    if v.len() == 0 {
        assert(v.push(x).drop_first() =~= Seq::<Seq<u8>>::empty());
        assert(v.push(x)[0] == x);
        assert(words_of_b32s(v.push(x)) =~= x + words_of_b32s(Seq::<Seq<u8>>::empty()));
    } else {
        assert(v.push(x).drop_first() =~= v.drop_first().push(x));
        assert(v.push(x)[0] == v[0]);
        lemma_words_of_b32s_snoc(v.drop_first(), x);
        assert(words_of_b32s(v.push(x)) =~= v[0] + (words_of_b32s(v.drop_first()) + x));
    }
}

/// Packs a `uint32[]` field's elements into consecutive 32-byte words.
fn encode_u32_array(v: &Vec<u32>) -> (r: Vec<u8>)
    ensures
        r@ == words_of_u32s(v@),
{
    let mut out: Vec<u8> = Vec::new();
    let mut i: usize = 0;
    while i < v.len()
        invariant
            i <= v@.len(),
            out@ =~= words_of_u32s(v@.take(i as int)),
        decreases v@.len() - i,
    {
        let w = u256_word_of_u32(v[i]);
        out.extend_from_slice(w.as_slice());
        proof {
            assert(v@.take(i + 1) =~= v@.take(i as int).push(v@[i as int]));
            lemma_words_of_u32s_snoc(v@.take(i as int), v@[i as int]);
            assert(out@ =~= words_of_u32s(v@.take(i + 1)));
        }
        i = i + 1;
    }
    proof {
        assert(v@.take(v@.len() as int) =~= v@);
    }
    out
}

/// The views of a vector of 32-byte values.
pub open spec fn b32_views(v: Seq<Bytes32>) -> Seq<Seq<u8>> {
    v.map_values(|b: Bytes32| b@)
}

/// Packs a `bytes32[]` field's elements into consecutive 32-byte words.
fn encode_b32_array(v: &Vec<Bytes32>) -> (r: Vec<u8>)
    ensures
        r@ == words_of_b32s(b32_views(v@)),
{
    let mut out: Vec<u8> = Vec::new();
    let mut i: usize = 0;
    while i < v.len()
        invariant
            i <= v@.len(),
            out@ =~= words_of_b32s(b32_views(v@.take(i as int))),
        decreases v@.len() - i,
    {
        out.extend_from_slice(v[i].bytes.as_slice());
        proof {
            assert(b32_views(v@.take(i + 1)) =~= b32_views(v@.take(i as int)).push(v@[i as int]@));
            lemma_words_of_b32s_snoc(b32_views(v@.take(i as int)), v@[i as int]@);
            assert(out@ =~= words_of_b32s(b32_views(v@.take(i + 1))));
        }
        i = i + 1;
    }
    proof {
        assert(v@.take(v@.len() as int) =~= v@);
    }
    out
}

/// The encoded field words of a transaction, in declaration order: fixed
/// fields as single 32-byte words, dynamic arrays as the hash of their packed
/// elements.
pub open spec fn encode_data_spec(t: StructuredTransaction) -> Seq<u8> {
    match t {
        StructuredTransaction::StreamAuthentication(x) => x.sender@ + u256_of_u128(
            x.expiration as u128,
        ),
        StructuredTransaction::Order(x) => x.sender@ + u256_of_i128(x.price_x18) + u256_of_i128(
            x.amount,
        ) + u256_of_u128(x.expiration as u128) + u256_of_u128(x.nonce as u128),
        StructuredTransaction::Cancellation(x) => x.sender@ + keccak_of(
            words_of_u32s(x.product_ids@),
        ) + keccak_of(words_of_b32s(b32_views(x.digests@))) + u256_of_u128(x.nonce as u128),
        StructuredTransaction::CancellationProducts(x) => x.sender@ + keccak_of(
            words_of_u32s(x.product_ids@),
        ) + u256_of_u128(x.nonce as u128),
        StructuredTransaction::WithdrawCollateral(x) => x.sender@ + u256_of_u128(
            x.product_id as u128,
        ) + u256_of_u128(x.amount) + u256_of_u128(x.nonce as u128),
        StructuredTransaction::LiquidateSubaccount(x) => x.sender@ + x.liquidatee@ + u256_of_u128(
            x.mode as u128,
        ) + u256_of_u128(x.health_group as u128) + u256_of_i128(x.amount) + u256_of_u128(
            x.nonce as u128,
        ),
        StructuredTransaction::MintLp(x) => x.sender@ + u256_of_u128(x.product_id as u128)
            + u256_of_u128(x.amount_base) + u256_of_u128(x.quote_amount_low) + u256_of_u128(
            x.quote_amount_high,
        ) + u256_of_u128(x.nonce as u128),
        StructuredTransaction::BurnLp(x) => x.sender@ + u256_of_u128(x.product_id as u128)
            + u256_of_u128(x.amount) + u256_of_u128(x.nonce as u128),
        StructuredTransaction::LinkSigner(x) => x.sender@ + x.signer@ + u256_of_u128(
            x.nonce as u128,
        ),
    }
}

/// A transaction's struct hash: the hash of its type signature's hash
/// followed by its encoded fields.
pub open spec fn struct_hash_spec(t: StructuredTransaction) -> Seq<u8> {
    keccak_of(keccak_of(encode_utf8(type_str(t))) + encode_data_spec(t))
}

/// The signing hash of a transaction under a domain: the two-byte
/// structured-data prefix, the domain separator, and the struct hash, hashed
/// together.  This is the value the private key signs.
pub open spec fn signing_hash_spec(t: StructuredTransaction, d: Domain) -> Seq<u8> {
    keccak_of(seq![0x19u8, 0x01u8] + domain_separator_spec(d) + struct_hash_spec(t))
}

/// Hashing is a function of the transaction and domain values alone: the same
/// transaction under the same domain always yields the same signing hash,
/// even where the final signature varies.
pub proof fn lemma_signing_hash_deterministic(
    t1: StructuredTransaction,
    d1: Domain,
    t2: StructuredTransaction,
    d2: Domain,
)
    requires
        t1 == t2,
        d1 == d2,
    ensures
        signing_hash_spec(t1, d1) == signing_hash_spec(t2, d2),
{
}

/// The type-signature string of a transaction variant.
fn type_str_exec(t: &StructuredTransaction) -> (r: &'static str)
    ensures
        r@ == type_str(*t),
{
    match t {
        StructuredTransaction::StreamAuthentication(_) => "StreamAuthentication(bytes32 sender,uint64 expiration)",
        StructuredTransaction::Order(_) => "Order(bytes32 sender,int128 priceX18,int128 amount,uint64 expiration,uint64 nonce)",
        StructuredTransaction::Cancellation(_) => "Cancellation(bytes32 sender,uint32[] productIds,bytes32[] digests,uint64 nonce)",
        StructuredTransaction::CancellationProducts(_) => "CancellationProducts(bytes32 sender,uint32[] productIds,uint64 nonce)",
        StructuredTransaction::WithdrawCollateral(_) => "WithdrawCollateral(bytes32 sender,uint32 productId,uint128 amount,uint64 nonce)",
        StructuredTransaction::LiquidateSubaccount(_) => "LiquidateSubaccount(bytes32 sender,bytes32 liquidatee,uint8 mode,uint32 healthGroup,int128 amount,uint64 nonce)",
        StructuredTransaction::MintLp(_) => "MintLp(bytes32 sender,uint32 productId,uint128 amountBase,uint128 quoteAmountLow,uint128 quoteAmountHigh,uint64 nonce)",
        StructuredTransaction::BurnLp(_) => "BurnLp(bytes32 sender,uint32 productId,uint128 amount,uint64 nonce)",
        StructuredTransaction::LinkSigner(_) => "LinkSigner(bytes32 sender,bytes32 signer,uint64 nonce)",
    }
}

/// Encodes a transaction's fields into their packed words.
fn encode_data(t: &StructuredTransaction) -> (r: Vec<u8>)
    ensures
        r@ == encode_data_spec(*t),
{
    let mut out: Vec<u8> = Vec::new();
    match t {
        StructuredTransaction::StreamAuthentication(x) => {
            out.extend_from_slice(x.sender.bytes.as_slice());
            let w = u256_word_of_u64(x.expiration);
            out.extend_from_slice(w.as_slice());
        },
        StructuredTransaction::Order(x) => {
            out.extend_from_slice(x.sender.bytes.as_slice());
            let w1 = u256_word_of_i128(x.price_x18);
            out.extend_from_slice(w1.as_slice());
            let w2 = u256_word_of_i128(x.amount);
            out.extend_from_slice(w2.as_slice());
            let w3 = u256_word_of_u64(x.expiration);
            out.extend_from_slice(w3.as_slice());
            let w4 = u256_word_of_u64(x.nonce);
            out.extend_from_slice(w4.as_slice());
        },
        StructuredTransaction::Cancellation(x) => {
            out.extend_from_slice(x.sender.bytes.as_slice());
            let ids = encode_u32_array(&x.product_ids);
            let ids_hash = keccak(ids.as_slice());
            out.extend_from_slice(ids_hash.as_slice());
            let digs = encode_b32_array(&x.digests);
            let digs_hash = keccak(digs.as_slice());
            out.extend_from_slice(digs_hash.as_slice());
            let w = u256_word_of_u64(x.nonce);
            out.extend_from_slice(w.as_slice());
        },
        StructuredTransaction::CancellationProducts(x) => {
            out.extend_from_slice(x.sender.bytes.as_slice());
            let ids = encode_u32_array(&x.product_ids);
            let ids_hash = keccak(ids.as_slice());
            out.extend_from_slice(ids_hash.as_slice());
            let w = u256_word_of_u64(x.nonce);
            out.extend_from_slice(w.as_slice());
        },
        StructuredTransaction::WithdrawCollateral(x) => {
            out.extend_from_slice(x.sender.bytes.as_slice());
            let w1 = u256_word_of_u32(x.product_id);
            out.extend_from_slice(w1.as_slice());
            let w2 = u256_word_of_u128(x.amount);
            out.extend_from_slice(w2.as_slice());
            let w3 = u256_word_of_u64(x.nonce);
            out.extend_from_slice(w3.as_slice());
        },
        StructuredTransaction::LiquidateSubaccount(x) => {
            out.extend_from_slice(x.sender.bytes.as_slice());
            out.extend_from_slice(x.liquidatee.bytes.as_slice());
            let w1 = u256_word_of_u128(x.mode as u128);
            out.extend_from_slice(w1.as_slice());
            let w2 = u256_word_of_u32(x.health_group);
            out.extend_from_slice(w2.as_slice());
            let w3 = u256_word_of_i128(x.amount);
            out.extend_from_slice(w3.as_slice());
            let w4 = u256_word_of_u64(x.nonce);
            out.extend_from_slice(w4.as_slice());
        },
        StructuredTransaction::MintLp(x) => {
            out.extend_from_slice(x.sender.bytes.as_slice());
            let w1 = u256_word_of_u32(x.product_id);
            out.extend_from_slice(w1.as_slice());
            let w2 = u256_word_of_u128(x.amount_base);
            out.extend_from_slice(w2.as_slice());
            let w3 = u256_word_of_u128(x.quote_amount_low);
            out.extend_from_slice(w3.as_slice());
            let w4 = u256_word_of_u128(x.quote_amount_high);
            out.extend_from_slice(w4.as_slice());
            let w5 = u256_word_of_u64(x.nonce);
            out.extend_from_slice(w5.as_slice());
        },
        StructuredTransaction::BurnLp(x) => {
            out.extend_from_slice(x.sender.bytes.as_slice());
            let w1 = u256_word_of_u32(x.product_id);
            out.extend_from_slice(w1.as_slice());
            let w2 = u256_word_of_u128(x.amount);
            out.extend_from_slice(w2.as_slice());
            let w3 = u256_word_of_u64(x.nonce);
            out.extend_from_slice(w3.as_slice());
        },
        StructuredTransaction::LinkSigner(x) => {
            out.extend_from_slice(x.sender.bytes.as_slice());
            out.extend_from_slice(x.signer.bytes.as_slice());
            let w = u256_word_of_u64(x.nonce);
            out.extend_from_slice(w.as_slice());
        },
    }
    proof {
        assert(out@ =~= encode_data_spec(*t));
    }
    out
}

/// Hashes a transaction's type signature and encoded fields into its struct
/// hash.
pub fn struct_hash(t: &StructuredTransaction) -> (r: Vec<u8>)
    ensures
        r@ == struct_hash_spec(*t),
        r@.len() == 32,
{
    let type_hash = keccak(type_str_exec(t).as_bytes());
    let data = encode_data(t);
    let mut enc: Vec<u8> = Vec::new();
    enc.extend_from_slice(type_hash.as_slice());
    enc.extend_from_slice(data.as_slice());
    proof {
        assert(enc@ =~= keccak_of(encode_utf8(type_str(*t))) + encode_data_spec(*t));
    }
    keccak(enc.as_slice())
}

/// Computes the typed-data signing hash of a transaction under a domain.
pub fn signing_hash(t: &StructuredTransaction, d: &Domain) -> (r: Vec<u8>)
    ensures
        r@ == signing_hash_spec(*t, *d),
        r@.len() == 32,
{
    let sep = domain_separator(d);
    let sh = struct_hash(t);
    let mut enc: Vec<u8> = Vec::new();
    enc.push(0x19u8);
    enc.push(0x01u8);
    enc.extend_from_slice(sep.as_slice());
    enc.extend_from_slice(sh.as_slice());
    proof {
        assert(enc@ =~= seq![0x19u8, 0x01u8] + domain_separator_spec(*d) + struct_hash_spec(*t));
    }
    keccak(enc.as_slice())
}

} // verus!
