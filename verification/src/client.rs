use vstd::prelude::*;

use crate::codec;
use crate::errors::ConnectError;
use crate::gateway_client::GatewayClient;
use crate::payloads::{query_message, query_message_spec, QueryKind};
use crate::subscription_client::SubscriptionClient;

verus! {

/// The caller-facing client: it owns the long-lived subscription session and
/// the one-shot gateway client, and prepares every frame the gateway is
/// sent.  The I/O around each frame lives with the caller.
#[derive(Debug)]
pub struct VertexClient {
    pub subscription_client: SubscriptionClient,
    pub gateway_client: GatewayClient,
}

impl VertexClient {
    /// The query frame for a query kind.
    pub fn construct_query_message(&self, kind: QueryKind) -> (r: String)
        ensures
            r@ == query_message_spec(kind),
    {
        query_message(kind)
    }

    /// A fresh replay-protection nonce from the wall clock; its low 20 bits
    /// hold the configured low-order value.
    pub fn generate_nonce(&self) -> (r: Option<u64>)
        ensures
            r matches Some(v) ==> v % codec::NONCE_LOW_SPAN == codec::NONCE_LOW_BITS,
    {
        codec::next_nonce()
    }

    /// An expiration the given seconds from now, carrying the order type in
    /// its high bits; an order type above 3 is rejected.
    pub fn generate_expiration_time(&self, seconds_from_now: u64, order_type: u8) -> (r: Result<
        u64,
        ConnectError,
    >)
        ensures
            order_type > 3 ==> (r matches Err(e) && e is Protocol),
            r matches Ok(v) ==> order_type <= 3 && codec::decode_order_type_spec(v) == order_type,
            r matches Err(e) ==> e is Protocol,
    {
        codec::generate_expiration_time(seconds_from_now, order_type)
    }
}

} // verus!
