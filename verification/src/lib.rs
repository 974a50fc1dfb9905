mod client;
mod codec;
mod config;
mod eip712;
mod errors;
mod execute;
mod gateway_client;
mod numfmt;
mod payload_signer;
mod payloads;
mod query;
mod serializable_structs;
mod signer;
mod sol_structs;
mod subscription_client;
mod type_conv;
mod websocket;

pub use client::VertexClient;
pub use codec::{
    decode_deadline, decode_order_type, encode_expiration, generate_expiration_time,
    lemma_expiration_round_trip, lemma_nonce_low_bits, lemma_nonce_monotonic, next_nonce,
    nonce_from_millis,
};
pub use config::Config;
pub use eip712::{create_domain, domain_separator, Domain};
pub use errors::ConnectError;
pub use execute::{
    full_sender_hex, make_sender_hex, CancelAllForProductRequest, CancelAndPlaceRequest,
    CancelOrderBytesRequest, CancelOrderRequest, OrderRequest, PlaceOrderRequest,
};
pub use signer::valid_private_key;
pub use eip712::valid_contract_hex;
pub use gateway_client::{classify_response, next_backoff, Frame, GatewayClient, RecvOutcome};
pub use numfmt::{i128_to_dec, parse_i128, u128_to_dec, u32_to_dec, u64_to_dec};
pub use payload_signer::Signer;
pub use payloads::{
    auth_payload, cancel_and_place_payload, cancel_orders_payload, cancel_product_orders_payload,
    cancel_tx_object, json_string_array, json_u32_array, order_object, place_order_object,
    place_order_payload, query_message, QueryKind,
};
pub use query::{
    determine_query_type, parse_status_response, select_book_address, QueryRequest, StatusResponse,
};
pub use serializable_structs::{SerializableOrder, SerializableStreamAuthentication};
pub use signer::{is_sig_string, lemma_sig_string_len, sig_string_of, EthSigner};
pub use sol_structs::{
    lemma_signing_hash_deterministic, signing_hash, struct_hash, BurnLp, Cancellation,
    CancellationProducts, LinkSigner, LiquidateSubaccount, MintLp, Order, StreamAuthentication,
    StructuredTransaction, WithdrawCollateral,
};
pub use subscription_client::{SessionState, SubscriptionClient};
pub use type_conv::{
    fixed_bytes_to_hex, hex_decode, hex_encode, hex_to_fixed_bytes32, lemma_pad32_round_trip,
    pad_to_fixed_bytes32, vec_to_fixed_bytes32, Bytes32,
};
pub use websocket::is_auth_ack;
