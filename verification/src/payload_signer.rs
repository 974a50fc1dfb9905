use vstd::prelude::*;

use crate::eip712::{create_domain, valid_contract_hex, Domain};
use crate::errors::ConnectError;
use crate::numfmt::dec_str;
use crate::payloads::{auth_payload, auth_payload_spec};
use crate::serializable_structs::SerializableStreamAuthentication;
use crate::signer::{is_sig_string, valid_private_key, EthSigner};
use crate::sol_structs::{signing_hash, Order, StreamAuthentication, StructuredTransaction};
use crate::type_conv::{hex_decode_seq, hex_seq, hex_to_fixed_bytes32, pad32, strip_0x, valid_hex32};

verus! {

/// How many milliseconds past its construction time an authentication
/// payload stays valid.
pub const AUTH_VALIDITY_MS: u64 = 60000;

/// Signs structured transactions under one fixed domain: the key and the
/// domain are immutable once constructed.
#[derive(Debug)]
pub struct Signer {
    eth_signer: EthSigner,
    domain: Domain,
}

impl Signer {
    /// Well-formed exactly when the domain carries a 20-byte contract.
    pub closed spec fn wf(&self) -> bool {
        self.domain.wf()
    }

    /// The domain every signature of this signer is bound to.
    pub closed spec fn spec_domain(&self) -> Domain {
        self.domain
    }

    /// Builds a signer from a hex private key and the verifying contract the
    /// signatures must be bound to: the exchange contract for session
    /// authentication, a per-market book contract for orders.  Construction
    /// succeeds exactly on a key the curve accepts and a 20-byte contract,
    /// and the domain holds exactly that contract.
    pub fn new(private_key: &str, contract_address: &str, chain_id: u64) -> (r: Result<
        Signer,
        ConnectError,
    >)
        ensures
            r is Ok <==> valid_private_key(private_key@) && valid_contract_hex(contract_address@),
            r matches Ok(s) ==> {
                &&& s.wf()
                &&& s.spec_domain().name@ == "Vertex"@
                &&& s.spec_domain().version@ == "0.0.1"@
                &&& s.spec_domain().chain_id == chain_id
                &&& s.spec_domain().verifying_contract@ == hex_decode_seq(
                    strip_0x(contract_address@),
                )
            },
            r matches Err(e) ==> e is Signing,
    {
        let eth_signer = match EthSigner::new(private_key) {
            Ok(v) => v,
            Err(e) => {
                return Err(e);
            },
        };
        let domain = match create_domain(contract_address, chain_id) {
            Ok(v) => v,
            Err(e) => {
                return Err(e);
            },
        };
        Ok(Signer { eth_signer, domain })
    }

    /// Signs any structured transaction under this signer's domain; the
    /// typed hash is always 32 bytes, so signing never fails.
    pub fn sign_transaction(&self, t: &StructuredTransaction) -> (r: Result<String, ConnectError>)
        ensures
            r is Ok,
            r matches Ok(sig) ==> is_sig_string(sig@),
    {
        let hash = signing_hash(t, &self.domain);
        self.eth_signer.generate_signature(hash.as_slice())
    }

    /// Signs a stream-authentication transaction for a hex sender address,
    /// valid for one minute from the given clock reading.  Signing succeeds
    /// exactly when the sender is well-formed hex of at most 32 bytes.
    pub fn sign_subscription_auth_payload(&self, sender_address: &str, now_ms: u64) -> (r: Result<
        String,
        ConnectError,
    >)
        requires
            now_ms + AUTH_VALIDITY_MS <= u64::MAX,
        ensures
            r is Ok <==> valid_hex32(sender_address@),
            r matches Ok(sig) ==> is_sig_string(sig@),
            r matches Err(e) ==> e is Signing,
    {
        let sender = match hex_to_fixed_bytes32(sender_address) {
            Ok(v) => v,
            Err(e) => {
                return Err(e);
            },
        };
        let tx = StreamAuthentication { sender, expiration: now_ms + AUTH_VALIDITY_MS };
        self.sign_transaction(&StructuredTransaction::StreamAuthentication(tx))
    }

    /// Builds the whole authentication frame for a hex sender address: the
    /// transaction rendered for transport and its signature, with a one
    /// minute validity from the given clock reading.  The signed bytes and
    /// the transmitted text carry the same sender and expiration, and the
    /// frame is built exactly when the sender is well-formed hex of at most
    /// 32 bytes.
    pub fn construct_ws_auth_payload(&self, sender_address: &str, now_ms: u64) -> (r: Result<
        String,
        ConnectError,
    >)
        requires
            now_ms + AUTH_VALIDITY_MS <= u64::MAX,
        ensures
            r is Ok <==> valid_hex32(sender_address@),
            r matches Ok(m) ==> exists|sig: Seq<char>|
                is_sig_string(sig) && m@ == auth_payload_spec(
                    hex_seq(pad32(hex_decode_seq(strip_0x(sender_address@)))),
                    dec_str((now_ms + AUTH_VALIDITY_MS) as nat),
                    sig,
                ),
            r matches Err(e) ==> e is Signing,
    {
        let sender = match hex_to_fixed_bytes32(sender_address) {
            Ok(v) => v,
            Err(e) => {
                return Err(e);
            },
        };
        let tx = StreamAuthentication { sender, expiration: now_ms + AUTH_VALIDITY_MS };
        let ser = SerializableStreamAuthentication::from(&tx);
        let signature = match self.sign_transaction(
            &StructuredTransaction::StreamAuthentication(tx),
        ) {
            Ok(s) => s,
            Err(e) => {
                return Err(e);
            },
        };
        Ok(auth_payload(&ser, signature.as_str()))
    }

    /// Signs an order under this signer's domain, which must have been built
    /// with the order's book contract; the typed hash is always 32 bytes, so
    /// signing never fails.
    pub fn sign_place_order_payload(&self, order: &Order) -> (r: Result<String, ConnectError>)
        ensures
            r is Ok,
            r matches Ok(sig) ==> is_sig_string(sig@),
    {
        self.sign_transaction(&StructuredTransaction::Order(order.clone()))
    }
}

} // verus!
