use vstd::prelude::*;
use vstd::slice::slice_to_vec;
use vstd::string::StringExecFns;

use crate::client::VertexClient;
use crate::errors::ConnectError;
use crate::numfmt::{dec_str, i128_val, int_dec_str, parse_i128, valid_i128_str};
use crate::eip712::valid_contract_hex;
use crate::payload_signer::Signer;
use crate::payloads::{
    cancel_and_place_payload, cancel_and_place_payload_spec, cancel_orders_payload,
    cancel_orders_payload_spec, cancel_product_orders_payload, cancel_product_orders_payload_spec,
    order_object_spec, place_order_object, place_order_object_spec, place_order_payload_spec,
    str_views,
};
use crate::serializable_structs::SerializableOrder;
use crate::signer::{is_sig_string, valid_private_key};
use crate::sol_structs::{Cancellation, CancellationProducts, Order, StructuredTransaction};
use crate::type_conv::{
    hex_decode, hex_decode_seq, hex_encode, hex_seq, hex_to_fixed_bytes32, is_hex_str, pad32,
    strip_0x, strip_0x_prefix, valid_hex32, Bytes32,
};

verus! {

/// The order fields a caller supplies: the account address and the price and
/// amount as decimal strings, already scaled by 1e18.
#[derive(Debug, PartialEq, Eq)]
pub struct OrderRequest {
    pub sender: String,
    pub price_x18: String,
    pub amount: String,
}

/// A placement request; the order fields are optional on the wire and their
/// absence is rejected before anything reaches the gateway.
#[derive(Debug, PartialEq, Eq)]
pub struct PlaceOrderRequest {
    pub product_id: u32,
    pub order: Option<OrderRequest>,
    pub id: u64,
}

/// A cancellation request for specific orders, their digests already in hex.
#[derive(Debug, PartialEq, Eq)]
pub struct CancelOrderRequest {
    pub sender: String,
    pub product_ids: Vec<u32>,
    pub digests: Vec<String>,
}

/// A cancellation request for all orders in the named products.
#[derive(Debug, PartialEq, Eq)]
pub struct CancelAllForProductRequest {
    pub sender: String,
    pub product_ids: Vec<u32>,
}

/// A cancellation request whose digests arrive as raw 32-byte values.
#[derive(Debug, PartialEq, Eq)]
pub struct CancelOrderBytesRequest {
    pub sender: String,
    pub product_ids: Vec<u32>,
    pub digests: Vec<Vec<u8>>,
}

/// A combined cancel-and-place request; both halves are optional on the wire
/// and the absence of either is rejected.
#[derive(Debug, PartialEq, Eq)]
pub struct CancelAndPlaceRequest {
    pub cancel_order_request: Option<CancelOrderBytesRequest>,
    pub place_order_request: Option<PlaceOrderRequest>,
}

/// The default subaccount tag: "default" in hex, zero-padded to 12 bytes.
pub const DEFAULT_SUBACCOUNT: &'static str = "64656661756c740000000000";

/// The full sender hex: the address (any "0x" removed), the subaccount tag,
/// right-padded with zeros to 64 characters.
pub open spec fn full_sender_hex(sender: Seq<char>) -> Seq<char> {
    let base = strip_0x(sender) + "64656661756c740000000000"@;
    if base.len() >= 64 {
        base
    } else {
        base + Seq::new((64 - base.len()) as nat, |i: int| '0')
    }
}

/// Appends the default subaccount tag to an account address and zero-pads
/// the result to the 64 hex characters of a 32-byte sender.
pub fn make_sender_hex(sender: &str) -> (r: String)
    ensures
        r@ == full_sender_hex(sender@),
{
    let stripped = strip_0x_prefix(sender);
    let mut r = String::from_str(stripped);
    r.append("64656661756c740000000000");
    let ghost base = strip_0x(sender@) + "64656661756c740000000000"@;
    let mut len = r.as_str().unicode_len();
    proof {
        reveal_strlit("0");
        assert(r@ =~= base + Seq::new((len - base.len()) as nat, |i: int| '0'));
    }
    while len < 64
        invariant
            len == r@.len(),
            r@ =~= base + Seq::new((len - base.len()) as nat, |i: int| '0'),
            base.len() <= len,
            len == base.len() || len <= 64,
            "0"@ =~= seq!['0'],
        decreases 64 - len,
    {
        r.append("0");
        len = len + 1;
        proof {
            assert(r@ =~= base + Seq::new((len - base.len()) as nat, |i: int| '0'));
        }
    }
    proof {
        if base.len() >= 64 {
            assert(r@ =~= base);
        }
    }
    r
}

/// The sender bytes an order is signed with: the full sender hex decoded
/// into 32 bytes.
pub open spec fn order_sender_bytes(sender: Seq<char>) -> Seq<u8> {
    pad32(hex_decode_seq(strip_0x(full_sender_hex(sender))))
}

/// The rendered order object for a caller's order fields and fresh nonce
/// and expiration values.
pub open spec fn order_object_of_request(
    o: OrderRequest,
    nonce: u64,
    expiration: u64,
) -> Seq<char> {
    order_object_spec(
        hex_seq(order_sender_bytes(o.sender@)),
        int_dec_str(i128_val(o.price_x18@)),
        int_dec_str(i128_val(o.amount@)),
        dec_str(expiration as nat),
        dec_str(nonce as nat),
    )
}

/// Whether a caller's order fields are usable: parseable price and amount,
/// and a sender whose widened hex decodes into 32 bytes.
pub open spec fn valid_order_fields(o: OrderRequest) -> bool {
    &&& valid_i128_str(o.price_x18@)
    &&& valid_i128_str(o.amount@)
    &&& valid_hex32(full_sender_hex(o.sender@))
}

/// The protocol defects of a placement request: a missing order field, or a
/// price or amount that is no decimal number.
pub open spec fn order_protocol_defect(request: PlaceOrderRequest) -> bool {
    match request.order {
        Option::None => true,
        Option::Some(o) => !valid_i128_str(o.price_x18@) || !valid_i128_str(o.amount@),
    }
}

/// Whether a hex digest denotes exactly 32 bytes.
pub open spec fn valid_digest_hex(d: Seq<char>) -> bool {
    is_hex_str(strip_0x(d)) && hex_decode_seq(strip_0x(d)).len() == 32
}

/// Whether every digest in a cancellation request denotes 32 bytes.
pub open spec fn all_digests_valid(ds: Seq<String>) -> bool {
    forall|i: int| 0 <= i < ds.len() ==> valid_digest_hex((#[trigger] ds[i])@)
}

/// Whether every raw digest in a combined request is exactly 32 bytes.
pub open spec fn all_raw_digests_32(ds: Seq<Vec<u8>>) -> bool {
    forall|i: int| 0 <= i < ds.len() ==> (#[trigger] ds[i])@.len() == 32
}

impl VertexClient {
    /// Checks a placement request without any gateway traffic: succeeds
    /// exactly when the order fields are present and usable.  A missing
    /// order or unparseable number is a protocol defect; a sender that does
    /// not decode is a signing error.
    pub fn validate_place_order(&self, request: &PlaceOrderRequest) -> (r: Result<
        (),
        ConnectError,
    >)
        ensures
            r is Ok <==> (request.order matches Some(o) && valid_order_fields(o)),
            (r matches Err(e) && e is Protocol) <==> order_protocol_defect(*request),
            r matches Err(e) ==> e is Protocol || e is Signing,
    {
        let order_request = match &request.order {
            Some(o) => o,
            None => {
                return Err(
                    ConnectError::Protocol(String::from_str("order is missing in the request")),
                );
            },
        };
        match parse_i128(order_request.price_x18.as_str()) {
            Ok(_) => (),
            Err(e) => {
                return Err(e);
            },
        }
        match parse_i128(order_request.amount.as_str()) {
            Ok(_) => (),
            Err(e) => {
                return Err(e);
            },
        }
        let sender_full_hex = make_sender_hex(order_request.sender.as_str());
        match hex_to_fixed_bytes32(sender_full_hex.as_str()) {
            Ok(_) => Ok(()),
            Err(e) => Err(e),
        }
    }

    /// Builds and signs the placement object for a request: the sender is
    /// widened with the subaccount tag, the price and amount parsed, and the
    /// order signed under the product's book contract.  It succeeds exactly
    /// when the order fields are usable and the configured key, chain id and
    /// book contract are; a missing order or unparseable number is a
    /// protocol defect, rejected before anything is sent.
    pub fn build_place_order_object(
        &self,
        request: &PlaceOrderRequest,
        book_addr: &str,
        nonce: u64,
        expiration: u64,
    ) -> (r: Result<String, ConnectError>)
        ensures
            r is Ok <==> (request.order matches Some(o) && valid_order_fields(o))
                && self.gateway_client.config.arbitrum_testnet_chain_id >= 0 && valid_private_key(
                self.gateway_client.config.private_key@,
            ) && valid_contract_hex(book_addr@),
            (r matches Err(e) && e is Protocol) <==> order_protocol_defect(*request),
            r matches Ok(m) ==> request.order matches Some(o) && exists|sig: Seq<char>|
                is_sig_string(sig) && m@ == place_order_object_spec(
                    request.product_id,
                    order_object_of_request(o, nonce, expiration),
                    sig,
                    request.id,
                ),
            r matches Err(e) ==> e is Protocol || e is Signing,
    {
        let order_request = match &request.order {
            Some(o) => o,
            None => {
                return Err(
                    ConnectError::Protocol(String::from_str("order is missing in the request")),
                );
            },
        };
        let price_x18 = match parse_i128(order_request.price_x18.as_str()) {
            Ok(v) => v,
            Err(e) => {
                return Err(e);
            },
        };
        let amount = match parse_i128(order_request.amount.as_str()) {
            Ok(v) => v,
            Err(e) => {
                return Err(e);
            },
        };
        let sender_full_hex = make_sender_hex(order_request.sender.as_str());
        let sender = match hex_to_fixed_bytes32(sender_full_hex.as_str()) {
            Ok(v) => v,
            Err(e) => {
                return Err(e);
            },
        };
        let order = Order { sender, price_x18, amount, expiration, nonce };
        let signer = match self.order_signer(book_addr) {
            Ok(s) => s,
            Err(e) => {
                return Err(e);
            },
        };
        let signature = match signer.sign_place_order_payload(&order) {
            Ok(s) => s,
            Err(e) => {
                return Err(e);
            },
        };
        let ser = SerializableOrder::from(&order);
        Ok(place_order_object(request.product_id, &ser, signature.as_str(), request.id))
    }

    /// Builds and signs the whole placement frame for a request.
    pub fn prepare_place_order(
        &self,
        request: &PlaceOrderRequest,
        book_addr: &str,
        nonce: u64,
        expiration: u64,
    ) -> (r: Result<String, ConnectError>)
        ensures
            r is Ok <==> (request.order matches Some(o) && valid_order_fields(o))
                && self.gateway_client.config.arbitrum_testnet_chain_id >= 0 && valid_private_key(
                self.gateway_client.config.private_key@,
            ) && valid_contract_hex(book_addr@),
            (r matches Err(e) && e is Protocol) <==> order_protocol_defect(*request),
            r matches Ok(m) ==> request.order matches Some(o) && exists|sig: Seq<char>|
                is_sig_string(sig) && m@ == place_order_payload_spec(
                    request.product_id,
                    order_object_of_request(o, nonce, expiration),
                    sig,
                    request.id,
                ),
            r matches Err(e) ==> e is Protocol || e is Signing,
    {
        let obj = match self.build_place_order_object(request, book_addr, nonce, expiration) {
            Ok(v) => v,
            Err(e) => {
                return Err(e);
            },
        };
        let mut r = String::from_str("{\"place_order\":");
        r.append(obj.as_str());
        r.append("}");
        proof {
            let o = request.order->0;
            let sig = choose|sig: Seq<char>|
                is_sig_string(sig) && obj@ == place_order_object_spec(
                    request.product_id,
                    order_object_of_request(o, nonce, expiration),
                    sig,
                    request.id,
                );
            assert(r@ =~= place_order_payload_spec(
                request.product_id,
                order_object_of_request(o, nonce, expiration),
                sig,
                request.id,
            ));
        }
        Ok(r)
    }

    /// A signer for order placement, bound to the product's book contract.
    fn order_signer(&self, book_addr: &str) -> (r: Result<Signer, ConnectError>)
        ensures
            r is Ok <==> self.gateway_client.config.arbitrum_testnet_chain_id >= 0
                && valid_private_key(self.gateway_client.config.private_key@) && valid_contract_hex(
                book_addr@,
            ),
            r matches Err(e) ==> e is Signing,
    {
        if self.gateway_client.config.arbitrum_testnet_chain_id < 0 {
            return Err(ConnectError::Signing(String::from_str("chain id must not be negative")));
        }
        Signer::new(
            self.gateway_client.config.private_key.as_str(),
            book_addr,
            self.gateway_client.config.arbitrum_testnet_chain_id as u64,
        )
    }

    /// A signer for cancellations, bound to the configured exchange
    /// contract, as cancellations carry no per-market domain.
    fn cancel_signer(&self) -> (r: Result<Signer, ConnectError>)
        ensures
            r is Ok <==> self.gateway_client.config.arbitrum_testnet_chain_id >= 0
                && valid_private_key(self.gateway_client.config.private_key@) && valid_contract_hex(
                self.gateway_client.config.arbitrum_testnet_contract@,
            ),
            r matches Err(e) ==> e is Signing,
    {
        if self.gateway_client.config.arbitrum_testnet_chain_id < 0 {
            return Err(ConnectError::Signing(String::from_str("chain id must not be negative")));
        }
        Signer::new(
            self.gateway_client.config.private_key.as_str(),
            self.gateway_client.config.arbitrum_testnet_contract.as_str(),
            self.gateway_client.config.arbitrum_testnet_chain_id as u64,
        )
    }

    /// Builds the cancellation frame for specific order digests, signed over
    /// the cancellation's typed hash under the exchange contract.  It
    /// succeeds exactly when every digest denotes 32 bytes, the widened
    /// sender decodes, and the configured key, chain id and exchange
    /// contract are usable; a defective digest is a protocol defect.
    pub fn prepare_cancel_order(&self, request: &CancelOrderRequest, nonce: u64) -> (r: Result<
        String,
        ConnectError,
    >)
        ensures
            r is Ok <==> all_digests_valid(request.digests@) && valid_hex32(
                full_sender_hex(request.sender@),
            ) && self.gateway_client.config.arbitrum_testnet_chain_id >= 0 && valid_private_key(
                self.gateway_client.config.private_key@,
            ) && valid_contract_hex(self.gateway_client.config.arbitrum_testnet_contract@),
            (r matches Err(e) && e is Protocol) <==> !all_digests_valid(request.digests@),
            r matches Ok(m) ==> exists|sig: Seq<char>|
                is_sig_string(sig) && m@ == cancel_orders_payload_spec(
                    request.sender@,
                    request.product_ids@,
                    str_views(request.digests@),
                    nonce,
                    sig,
                ),
            r matches Err(e) ==> e is Protocol || e is Signing,
    {
        let mut digest_bytes: Vec<Bytes32> = Vec::new();
        let mut i: usize = 0;
        while i < request.digests.len()
            invariant
                i <= request.digests@.len(),
                forall|k: int|
                    0 <= k < i ==> valid_digest_hex((#[trigger] request.digests@[k])@),
            decreases request.digests@.len() - i,
        {
            let stripped = strip_0x_prefix(request.digests[i].as_str());
            let bytes = match hex_decode(stripped) {
                Some(b) => b,
                None => {
                    return Err(
                        ConnectError::Protocol(
                            String::from_str("order digest is not well-formed hex"),
                        ),
                    );
                },
            };
            if bytes.len() != 32 {
                return Err(
                    ConnectError::Protocol(String::from_str("order digest must be 32 bytes")),
                );
            }
            digest_bytes.push(Bytes32 { bytes });
            i = i + 1;
        }
        let sender_full_hex = make_sender_hex(request.sender.as_str());
        let sender = match hex_to_fixed_bytes32(sender_full_hex.as_str()) {
            Ok(v) => v,
            Err(e) => {
                return Err(e);
            },
        };
        let signer = match self.cancel_signer() {
            Ok(s) => s,
            Err(e) => {
                return Err(e);
            },
        };
        let tx = StructuredTransaction::Cancellation(
            Cancellation {
                sender,
                product_ids: slice_to_vec(request.product_ids.as_slice()),
                digests: digest_bytes,
                nonce,
            },
        );
        let signature = match signer.sign_transaction(&tx) {
            Ok(s) => s,
            Err(e) => {
                return Err(e);
            },
        };
        Ok(
            cancel_orders_payload(
                request.sender.as_str(),
                &request.product_ids,
                &request.digests,
                nonce,
                signature.as_str(),
            ),
        )
    }

    /// Builds the product-wide cancellation frame, signed over the
    /// cancellation's typed hash under the exchange contract.  It succeeds
    /// exactly when the widened sender decodes and the configured key, chain
    /// id and exchange contract are usable.
    pub fn prepare_cancel_all_for_product(
        &self,
        request: &CancelAllForProductRequest,
        nonce: u64,
    ) -> (r: Result<String, ConnectError>)
        ensures
            r is Ok <==> valid_hex32(full_sender_hex(request.sender@))
                && self.gateway_client.config.arbitrum_testnet_chain_id >= 0 && valid_private_key(
                self.gateway_client.config.private_key@,
            ) && valid_contract_hex(self.gateway_client.config.arbitrum_testnet_contract@),
            r matches Ok(m) ==> exists|sig: Seq<char>|
                is_sig_string(sig) && m@ == cancel_product_orders_payload_spec(
                    request.sender@,
                    request.product_ids@,
                    nonce,
                    sig,
                ),
            r matches Err(e) ==> e is Signing,
    {
        let sender_full_hex = make_sender_hex(request.sender.as_str());
        let sender = match hex_to_fixed_bytes32(sender_full_hex.as_str()) {
            Ok(v) => v,
            Err(e) => {
                return Err(e);
            },
        };
        let signer = match self.cancel_signer() {
            Ok(s) => s,
            Err(e) => {
                return Err(e);
            },
        };
        let tx = StructuredTransaction::CancellationProducts(
            CancellationProducts {
                sender,
                product_ids: slice_to_vec(request.product_ids.as_slice()),
                nonce,
            },
        );
        let signature = match signer.sign_transaction(&tx) {
            Ok(s) => s,
            Err(e) => {
                return Err(e);
            },
        };
        Ok(
            cancel_product_orders_payload(
                request.sender.as_str(),
                &request.product_ids,
                nonce,
                signature.as_str(),
            ),
        )
    }

    /// Builds the combined cancel-and-place frame: the raw digests must each
    /// be 32 bytes and are re-encoded as hex, the cancellation is signed
    /// under the exchange contract, and the placement half is built and
    /// signed as a placement on its own.  A missing half, a wrong-length
    /// digest or an unusable order field is a protocol defect.
    pub fn prepare_cancel_and_place(
        &self,
        request: &CancelAndPlaceRequest,
        cancel_nonce: u64,
        book_addr: &str,
        order_nonce: u64,
        expiration: u64,
    ) -> (r: Result<String, ConnectError>)
        ensures
            r is Ok <==> (request.cancel_order_request matches Some(c) && all_raw_digests_32(
                c.digests@,
            ) && valid_hex32(full_sender_hex(c.sender@))) && (
            request.place_order_request matches Some(p) && (p.order matches Some(o)
                && valid_order_fields(o))) && self.gateway_client.config.arbitrum_testnet_chain_id
                >= 0 && valid_private_key(self.gateway_client.config.private_key@)
                && valid_contract_hex(book_addr@) && valid_contract_hex(
                self.gateway_client.config.arbitrum_testnet_contract@,
            ),
            (r matches Err(e) && e is Protocol) <==> (request.cancel_order_request is None || (
            request.cancel_order_request matches Some(c) && (request.place_order_request is None
                || !all_raw_digests_32(c.digests@) || (request.place_order_request matches Some(p)
                && order_protocol_defect(p))))),
            r matches Ok(m) ==> request.cancel_order_request matches Some(c)
                && request.place_order_request matches Some(p) && p.order is Some && exists|
                sig: Seq<char>,
                cancel_sig: Seq<char>,
            |
                is_sig_string(sig) && is_sig_string(cancel_sig) && m@
                    == cancel_and_place_payload_spec(
                    c.sender@,
                    c.product_ids@,
                    c.digests@.map_values(|d: Vec<u8>| hex_seq(d@)),
                    cancel_nonce,
                    cancel_sig,
                    place_order_object_spec(
                        p.product_id,
                        order_object_of_request(p.order->0, order_nonce, expiration),
                        sig,
                        p.id,
                    ),
                ),
            r matches Err(e) ==> e is Protocol || e is Signing,
    {
        let cancel_request = match &request.cancel_order_request {
            Some(c) => c,
            None => {
                return Err(
                    ConnectError::Protocol(
                        String::from_str("cancellation is missing in the request"),
                    ),
                );
            },
        };
        let place_request = match &request.place_order_request {
            Some(p) => p,
            None => {
                return Err(
                    ConnectError::Protocol(String::from_str("order is missing in the request")),
                );
            },
        };
        let mut digests_hex: Vec<String> = Vec::new();
        let mut digest_bytes: Vec<Bytes32> = Vec::new();
        let mut i: usize = 0;
        while i < cancel_request.digests.len()
            invariant
                request.cancel_order_request == Some(*cancel_request),
                i <= cancel_request.digests@.len(),
                digests_hex@.len() == i,
                forall|k: int|
                    0 <= k < i ==> (#[trigger] cancel_request.digests@[k])@.len() == 32,
                forall|k: int|
                    0 <= k < i ==> (#[trigger] digests_hex@[k])@ == hex_seq(
                        cancel_request.digests@[k]@,
                    ),
            decreases cancel_request.digests@.len() - i,
        {
            let d = &cancel_request.digests[i];
            if d.len() != 32 {
                proof {
                    assert(!all_raw_digests_32(cancel_request.digests@)) by {
                        assert((cancel_request.digests@[i as int])@.len() != 32);
                    }
                }
                return Err(
                    ConnectError::Protocol(String::from_str("order digest must be 32 bytes")),
                );
            }
            digests_hex.push(hex_encode(d.as_slice()));
            digest_bytes.push(Bytes32 { bytes: slice_to_vec(d.as_slice()) });
            i = i + 1;
        }
        proof {
            assert(str_views(digests_hex@) =~= cancel_request.digests@.map_values(
                |d: Vec<u8>| hex_seq(d@),
            ));
        }
        let place_obj = match self.build_place_order_object(
            place_request,
            book_addr,
            order_nonce,
            expiration,
        ) {
            Ok(v) => v,
            Err(e) => {
                return Err(e);
            },
        };
        let sender_full_hex = make_sender_hex(cancel_request.sender.as_str());
        let sender = match hex_to_fixed_bytes32(sender_full_hex.as_str()) {
            Ok(v) => v,
            Err(e) => {
                return Err(e);
            },
        };
        let signer = match self.cancel_signer() {
            Ok(s) => s,
            Err(e) => {
                return Err(e);
            },
        };
        let tx = StructuredTransaction::Cancellation(
            Cancellation {
                sender,
                product_ids: slice_to_vec(cancel_request.product_ids.as_slice()),
                digests: digest_bytes,
                nonce: cancel_nonce,
            },
        );
        let cancel_signature = match signer.sign_transaction(&tx) {
            Ok(s) => s,
            Err(e) => {
                return Err(e);
            },
        };
        let payload = cancel_and_place_payload(
            cancel_request.sender.as_str(),
            &cancel_request.product_ids,
            &digests_hex,
            cancel_nonce,
            cancel_signature.as_str(),
            place_obj.as_str(),
        );
        proof {
            let p = request.place_order_request->0;
            let o = p.order->0;
            let sig = choose|sig: Seq<char>|
                is_sig_string(sig) && place_obj@ == place_order_object_spec(
                    p.product_id,
                    order_object_of_request(o, order_nonce, expiration),
                    sig,
                    p.id,
                );
            assert(is_sig_string(sig) && is_sig_string(cancel_signature@) && payload@
                == cancel_and_place_payload_spec(
                request.cancel_order_request->0.sender@,
                request.cancel_order_request->0.product_ids@,
                request.cancel_order_request->0.digests@.map_values(|d: Vec<u8>| hex_seq(d@)),
                cancel_nonce,
                cancel_signature@,
                place_order_object_spec(
                    p.product_id,
                    order_object_of_request(o, order_nonce, expiration),
                    sig,
                    p.id,
                ),
            ));
        }
        Ok(payload)
    }
}

} // verus!
