use vstd::prelude::*;
use vstd::string::StringExecFns;

use crate::numfmt::{dec_str, u32_to_dec, u64_to_dec};
use crate::serializable_structs::{SerializableOrder, SerializableStreamAuthentication};

verus! {

/// The authentication frame: method, fixed id 0, the transaction fields as
/// strings, and the signature, exactly in this order.
pub open spec fn auth_payload_spec(sender: Seq<char>, expiration: Seq<char>, signature: Seq<char>)
    -> Seq<char> {
    "{\"method\":\"authenticate\",\"id\":0,\"tx\":{\"sender\":\""@ + sender
        + "\",\"expiration\":\""@ + expiration + "\"},\"signature\":\""@ + signature + "\"}"@
}

/// Builds the authentication frame for a rendered transaction and its
/// signature.
pub fn auth_payload(tx: &SerializableStreamAuthentication, signature: &str) -> (r: String)
    ensures
        r@ == auth_payload_spec(tx.sender@, tx.expiration@, signature@),
{
    let mut r = String::from_str("{\"method\":\"authenticate\",\"id\":0,\"tx\":{\"sender\":\"");
    r.append(tx.sender.as_str());
    r.append("\",\"expiration\":\"");
    r.append(tx.expiration.as_str());
    r.append("\"},\"signature\":\"");
    r.append(signature);
    r.append("\"}");
    proof {
        assert(r@ =~= auth_payload_spec(tx.sender@, tx.expiration@, signature@));
    }
    r
}

/// The queries the gateway answers, each a one-field JSON frame.
#[derive(Debug, Clone, Copy, PartialEq, Eq)]
pub enum QueryKind {
    Status,
    Contracts,
    AllProducts,
    Symbols,
}

/// The type tag the gateway expects for a query.
pub open spec fn query_type_str(kind: QueryKind) -> Seq<char> {
    match kind {
        QueryKind::Status => "status"@,
        QueryKind::Contracts => "contracts"@,
        QueryKind::AllProducts => "all_products"@,
        QueryKind::Symbols => "symbols"@,
    }
}

/// The query frame: a single "type" field holding the query's tag.
pub open spec fn query_message_spec(kind: QueryKind) -> Seq<char> {
    "{\"type\":\""@ + query_type_str(kind) + "\"}"@
}

/// Builds the query frame for a query kind.
pub fn query_message(kind: QueryKind) -> (r: String)
    ensures
        r@ == query_message_spec(kind),
{
    let mut r = String::from_str("{\"type\":\"");
    match kind {
        QueryKind::Status => r.append("status"),
        QueryKind::Contracts => r.append("contracts"),
        QueryKind::AllProducts => r.append("all_products"),
        QueryKind::Symbols => r.append("symbols"),
    }
    r.append("\"}");
    proof {
        assert(r@ =~= query_message_spec(kind));
    }
    r
}

/// The tail of a JSON number array: a comma and the decimal form of each
/// element after the first.
pub open spec fn json_u32_tail(v: Seq<u32>) -> Seq<char>
    decreases v.len(),
{
    if v.len() == 0 {
        Seq::empty()
    } else {
        ","@ + dec_str(v[0] as nat) + json_u32_tail(v.drop_first())
    }
}

/// A JSON array of numbers in decimal, no spaces.
pub open spec fn json_u32_array_spec(v: Seq<u32>) -> Seq<char> {
    if v.len() == 0 {
        "[]"@
    } else {
        "["@ + dec_str(v[0] as nat) + json_u32_tail(v.drop_first()) + "]"@
    }
}

proof fn lemma_json_u32_tail_snoc(v: Seq<u32>, x: u32)
    ensures
        json_u32_tail(v.push(x)) =~= json_u32_tail(v) + ","@ + dec_str(x as nat),
    decreases v.len(),
{
    if v.len() == 0 {
        assert(v.push(x).drop_first() =~= Seq::<u32>::empty());
        assert(v.push(x)[0] == x);
        assert(json_u32_tail(v.push(x)) =~= ","@ + dec_str(x as nat) + json_u32_tail(
            Seq::<u32>::empty(),
        ));
    } else {
        assert(v.push(x).drop_first() =~= v.drop_first().push(x));
        assert(v.push(x)[0] == v[0]);
        lemma_json_u32_tail_snoc(v.drop_first(), x);
        assert(json_u32_tail(v.push(x)) =~= ","@ + dec_str(v[0] as nat) + (json_u32_tail(
            v.drop_first(),
        ) + ","@ + dec_str(x as nat)));
    }
}

/// Renders a vector of numbers as a JSON array.
pub fn json_u32_array(v: &Vec<u32>) -> (r: String)
    ensures
        r@ == json_u32_array_spec(v@),
{
    if v.len() == 0 {
        let r = String::from_str("[]");
        return r;
    }
    let mut r = String::from_str("[");
    let first = u32_to_dec(v[0]);
    r.append(first.as_str());
    let mut i: usize = 1;
    while i < v.len()
        invariant
            1 <= i <= v@.len(),
            v@.len() > 0,
            r@ =~= "["@ + dec_str(v@[0] as nat) + json_u32_tail(v@.subrange(1, i as int)),
        decreases v@.len() - i,
    {
        r.append(",");
        let item = u32_to_dec(v[i]);
        r.append(item.as_str());
        proof {
            assert(v@.subrange(1, i + 1) =~= v@.subrange(1, i as int).push(v@[i as int]));
            lemma_json_u32_tail_snoc(v@.subrange(1, i as int), v@[i as int]);
        }
        i = i + 1;
    }
    r.append("]");
    proof {
        assert(v@.subrange(1, v@.len() as int) =~= v@.drop_first());
        assert(r@ =~= json_u32_array_spec(v@));
    }
    r
}

/// The tail of a JSON string array: a comma and each quoted element after
/// the first.
pub open spec fn json_str_tail(v: Seq<Seq<char>>) -> Seq<char>
    decreases v.len(),
{
    if v.len() == 0 {
        Seq::empty()
    } else {
        ",\""@ + v[0] + "\""@ + json_str_tail(v.drop_first())
    }
}

/// A JSON array of strings, each element quoted, no spaces.  Elements are
/// emitted as they stand; callers pass hex strings, which need no escaping.
pub open spec fn json_str_array_spec(v: Seq<Seq<char>>) -> Seq<char> {
    if v.len() == 0 {
        "[]"@
    } else {
        "[\""@ + v[0] + "\""@ + json_str_tail(v.drop_first()) + "]"@
    }
}

proof fn lemma_json_str_tail_snoc(v: Seq<Seq<char>>, x: Seq<char>)
    ensures
        json_str_tail(v.push(x)) =~= json_str_tail(v) + ",\""@ + x + "\""@,
    decreases v.len(),
{
    if v.len() == 0 {
        assert(v.push(x).drop_first() =~= Seq::<Seq<char>>::empty());
        assert(v.push(x)[0] == x);
        assert(json_str_tail(v.push(x)) =~= ",\""@ + x + "\""@ + json_str_tail(
            Seq::<Seq<char>>::empty(),
        ));
    } else {
        assert(v.push(x).drop_first() =~= v.drop_first().push(x));
        assert(v.push(x)[0] == v[0]);
        lemma_json_str_tail_snoc(v.drop_first(), x);
        assert(json_str_tail(v.push(x)) =~= ",\""@ + v[0] + "\""@ + (json_str_tail(
            v.drop_first(),
        ) + ",\""@ + x + "\""@));
    }
}

/// The views of a vector of strings.
pub open spec fn str_views(v: Seq<String>) -> Seq<Seq<char>> {
    v.map_values(|s: String| s@)
}

/// Renders a vector of strings as a JSON array of quoted elements.
pub fn json_string_array(v: &Vec<String>) -> (r: String)
    ensures
        r@ == json_str_array_spec(str_views(v@)),
{
    if v.len() == 0 {
        let r = String::from_str("[]");
        return r;
    }
    let mut r = String::from_str("[\"");
    r.append(v[0].as_str());
    r.append("\"");
    let mut i: usize = 1;
    while i < v.len()
        invariant
            1 <= i <= v@.len(),
            v@.len() > 0,
            r@ =~= "[\""@ + v@[0]@ + "\""@ + json_str_tail(str_views(v@.subrange(1, i as int))),
        decreases v@.len() - i,
    {
        r.append(",\"");
        r.append(v[i].as_str());
        r.append("\"");
        proof {
            assert(str_views(v@.subrange(1, i + 1)) =~= str_views(
                v@.subrange(1, i as int),
            ).push(v@[i as int]@));
            lemma_json_str_tail_snoc(str_views(v@.subrange(1, i as int)), v@[i as int]@);
        }
        i = i + 1;
    }
    r.append("]");
    proof {
        assert(str_views(v@.subrange(1, v@.len() as int)) =~= str_views(v@).drop_first());
        assert(str_views(v@)[0] == v@[0]@);
        assert(r@ =~= json_str_array_spec(str_views(v@)));
    }
    r
}

/// The order object of a placement frame: every numeric field a decimal
/// string, the price field renamed to its camel-case wire name.
pub open spec fn order_object_spec(
    sender: Seq<char>,
    price_x18: Seq<char>,
    amount: Seq<char>,
    expiration: Seq<char>,
    nonce: Seq<char>,
) -> Seq<char> {
    "{\"sender\":\""@ + sender + "\",\"priceX18\":\""@ + price_x18 + "\",\"amount\":\""@
        + amount + "\",\"expiration\":\""@ + expiration + "\",\"nonce\":\""@ + nonce
        + "\"}"@
}

/// Renders the order object of a placement frame.
pub fn order_object(o: &SerializableOrder) -> (r: String)
    ensures
        r@ == order_object_spec(o.sender@, o.price_x18@, o.amount@, o.expiration@, o.nonce@),
{
    let mut r = String::from_str("{\"sender\":\"");
    r.append(o.sender.as_str());
    r.append("\",\"priceX18\":\"");
    r.append(o.price_x18.as_str());
    r.append("\",\"amount\":\"");
    r.append(o.amount.as_str());
    r.append("\",\"expiration\":\"");
    r.append(o.expiration.as_str());
    r.append("\",\"nonce\":\"");
    r.append(o.nonce.as_str());
    r.append("\"}");
    proof {
        assert(r@ =~= order_object_spec(
            o.sender@,
            o.price_x18@,
            o.amount@,
            o.expiration@,
            o.nonce@,
        ));
    }
    r
}

/// The inner placement object: product id, the order object, the signature
/// and the caller's id.
pub open spec fn place_order_object_spec(
    product_id: u32,
    order_obj: Seq<char>,
    signature: Seq<char>,
    id: u64,
) -> Seq<char> {
    "{\"product_id\":"@ + dec_str(product_id as nat) + ",\"order\":"@ + order_obj
        + ",\"signature\":\""@ + signature + "\",\"id\":"@ + dec_str(id as nat) + "}"@
}

/// Renders the inner placement object.
pub fn place_order_object(product_id: u32, o: &SerializableOrder, signature: &str, id: u64) -> (r:
    String)
    ensures
        r@ == place_order_object_spec(
            product_id,
            order_object_spec(o.sender@, o.price_x18@, o.amount@, o.expiration@, o.nonce@),
            signature@,
            id,
        ),
{
    let mut r = String::from_str("{\"product_id\":");
    let pid = u32_to_dec(product_id);
    r.append(pid.as_str());
    r.append(",\"order\":");
    let obj = order_object(o);
    r.append(obj.as_str());
    r.append(",\"signature\":\"");
    r.append(signature);
    r.append("\",\"id\":");
    let ids = u64_to_dec(id);
    r.append(ids.as_str());
    r.append("}");
    proof {
        assert(r@ =~= place_order_object_spec(
            product_id,
            order_object_spec(o.sender@, o.price_x18@, o.amount@, o.expiration@, o.nonce@),
            signature@,
            id,
        ));
    }
    r
}

/// The placement frame: the placement object under the "place_order"
/// envelope.
pub open spec fn place_order_payload_spec(
    product_id: u32,
    order_obj: Seq<char>,
    signature: Seq<char>,
    id: u64,
) -> Seq<char> {
    "{\"place_order\":"@ + place_order_object_spec(product_id, order_obj, signature, id) + "}"@
}

/// Builds the placement frame.
pub fn place_order_payload(product_id: u32, o: &SerializableOrder, signature: &str, id: u64) -> (r:
    String)
    ensures
        r@ == place_order_payload_spec(
            product_id,
            order_object_spec(o.sender@, o.price_x18@, o.amount@, o.expiration@, o.nonce@),
            signature@,
            id,
        ),
{
    let mut r = String::from_str("{\"place_order\":");
    let obj = place_order_object(product_id, o, signature, id);
    r.append(obj.as_str());
    r.append("}");
    proof {
        assert(r@ =~= place_order_payload_spec(
            product_id,
            order_object_spec(o.sender@, o.price_x18@, o.amount@, o.expiration@, o.nonce@),
            signature@,
            id,
        ));
    }
    r
}

/// The cancellation transaction object: sender, product ids, order digests
/// and the nonce, under the wire's camel-case names.
pub open spec fn cancel_tx_spec(
    sender: Seq<char>,
    product_ids: Seq<u32>,
    digests: Seq<Seq<char>>,
    nonce: u64,
) -> Seq<char> {
    "{\"sender\":\""@ + sender + "\",\"productIds\":"@ + json_u32_array_spec(product_ids)
        + ",\"digests\":"@ + json_str_array_spec(digests) + ",\"nonce\":"@ + dec_str(nonce as nat)
}

/// Renders the cancellation transaction object.
pub fn cancel_tx_object(
    sender: &str,
    product_ids: &Vec<u32>,
    digests: &Vec<String>,
    nonce: u64,
) -> (r: String)
    ensures
        r@ == cancel_tx_spec(sender@, product_ids@, str_views(digests@), nonce),
{
    let mut r = String::from_str("{\"sender\":\"");
    r.append(sender);
    r.append("\",\"productIds\":");
    let ids = json_u32_array(product_ids);
    r.append(ids.as_str());
    r.append(",\"digests\":");
    let digs = json_string_array(digests);
    r.append(digs.as_str());
    r.append(",\"nonce\":");
    let ns = u64_to_dec(nonce);
    r.append(ns.as_str());
    proof {
        assert(r@ =~= cancel_tx_spec(sender@, product_ids@, str_views(digests@), nonce));
    }
    r
}

/// The cancellation frame for specific digests.
pub open spec fn cancel_orders_payload_spec(
    sender: Seq<char>,
    product_ids: Seq<u32>,
    digests: Seq<Seq<char>>,
    nonce: u64,
    signature: Seq<char>,
) -> Seq<char> {
    "{\"cancel_orders\":{\"tx\":"@ + cancel_tx_spec(sender, product_ids, digests, nonce)
        + "},\"signature\":\""@ + signature + "\"}}"@
}

/// Builds the cancellation frame for specific order digests.
pub fn cancel_orders_payload(
    sender: &str,
    product_ids: &Vec<u32>,
    digests: &Vec<String>,
    nonce: u64,
    signature: &str,
) -> (r: String)
    ensures
        r@ == cancel_orders_payload_spec(
            sender@,
            product_ids@,
            str_views(digests@),
            nonce,
            signature@,
        ),
{
    let mut r = String::from_str("{\"cancel_orders\":{\"tx\":");
    let tx = cancel_tx_object(sender, product_ids, digests, nonce);
    r.append(tx.as_str());
    r.append("},\"signature\":\"");
    r.append(signature);
    r.append("\"}}");
    proof {
        assert(r@ =~= cancel_orders_payload_spec(
            sender@,
            product_ids@,
            str_views(digests@),
            nonce,
            signature@,
        ));
    }
    r
}

/// The product-wide cancellation frame: no digests, all orders in the named
/// products.
pub open spec fn cancel_product_orders_payload_spec(
    sender: Seq<char>,
    product_ids: Seq<u32>,
    nonce: u64,
    signature: Seq<char>,
) -> Seq<char> {
    "{\"cancel_product_orders\":{\"tx\":{\"sender\":\""@ + sender + "\",\"productIds\":"@
        + json_u32_array_spec(product_ids) + ",\"nonce\":"@ + dec_str(nonce as nat)
        + "},\"signature\":\""@ + signature + "\"}}"@
}

/// Builds the product-wide cancellation frame.
pub fn cancel_product_orders_payload(
    sender: &str,
    product_ids: &Vec<u32>,
    nonce: u64,
    signature: &str,
) -> (r: String)
    ensures
        r@ == cancel_product_orders_payload_spec(sender@, product_ids@, nonce, signature@),
{
    let mut r = String::from_str("{\"cancel_product_orders\":{\"tx\":{\"sender\":\"");
    r.append(sender);
    r.append("\",\"productIds\":");
    let ids = json_u32_array(product_ids);
    r.append(ids.as_str());
    r.append(",\"nonce\":");
    let ns = u64_to_dec(nonce);
    r.append(ns.as_str());
    r.append("},\"signature\":\"");
    r.append(signature);
    r.append("\"}}");
    proof {
        assert(r@ =~= cancel_product_orders_payload_spec(sender@, product_ids@, nonce, signature@));
    }
    r
}

/// The combined frame: a cancellation transaction and a placement under one
/// envelope, atomically handled by the gateway.
pub open spec fn cancel_and_place_payload_spec(
    sender: Seq<char>,
    product_ids: Seq<u32>,
    digests: Seq<Seq<char>>,
    nonce: u64,
    cancel_signature: Seq<char>,
    place_object: Seq<char>,
) -> Seq<char> {
    "{\"cancel_and_place\":{\"cancel_tx\":"@ + cancel_tx_spec(sender, product_ids, digests, nonce)
        + "},\"cancel_signature\":\""@ + cancel_signature + "\",\"place_order\":"@ + place_object
        + "}}"@
}

/// Builds the combined cancel-and-place frame around an already rendered
/// placement object.
pub fn cancel_and_place_payload(
    sender: &str,
    product_ids: &Vec<u32>,
    digests: &Vec<String>,
    nonce: u64,
    cancel_signature: &str,
    place_object: &str,
) -> (r: String)
    ensures
        r@ == cancel_and_place_payload_spec(
            sender@,
            product_ids@,
            str_views(digests@),
            nonce,
            cancel_signature@,
            place_object@,
        ),
{
    let mut r = String::from_str("{\"cancel_and_place\":{\"cancel_tx\":");
    let tx = cancel_tx_object(sender, product_ids, digests, nonce);
    r.append(tx.as_str());
    r.append("},\"cancel_signature\":\"");
    r.append(cancel_signature);
    r.append("\",\"place_order\":");
    r.append(place_object);
    r.append("}}");
    proof {
        assert(r@ =~= cancel_and_place_payload_spec(
            sender@,
            product_ids@,
            str_views(digests@),
            nonce,
            cancel_signature@,
            place_object@,
        ));
    }
    r
}

} // verus!
