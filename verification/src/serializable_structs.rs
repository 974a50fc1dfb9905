use vstd::prelude::*;

use crate::numfmt::{dec_str, int_dec_str, i128_to_dec, u64_to_dec};
use crate::sol_structs::{Order, StreamAuthentication};
use crate::type_conv::{hex_encode, hex_seq};

verus! {

/// The wire form of a stream authentication: the sender as bare hex, the
/// expiration as a decimal string, exactly as the gateway's JSON expects.
#[derive(Debug, PartialEq, Eq)]
pub struct SerializableStreamAuthentication {
    pub sender: String,
    pub expiration: String,
}

impl SerializableStreamAuthentication {
    /// Renders an authentication record for transport: the signed bytes and
    /// the transmitted text represent the same values.
    pub fn from(auth: &StreamAuthentication) -> (r: SerializableStreamAuthentication)
        ensures
            r.sender@ == hex_seq(auth.sender@),
            r.expiration@ == dec_str(auth.expiration as nat),
    {
        SerializableStreamAuthentication {
            sender: hex_encode(auth.sender.bytes.as_slice()),
            expiration: u64_to_dec(auth.expiration),
        }
    }
}

/// The wire form of an order: the sender as bare hex, every numeric field as
/// a decimal string.
#[derive(Debug, PartialEq, Eq)]
pub struct SerializableOrder {
    pub sender: String,
    pub price_x18: String,
    pub amount: String,
    pub expiration: String,
    pub nonce: String,
}

impl SerializableOrder {
    /// Renders an order record for transport: the signed bytes and the
    /// transmitted text represent the same values.
    pub fn from(order: &Order) -> (r: SerializableOrder)
        ensures
            r.sender@ == hex_seq(order.sender@),
            r.price_x18@ == int_dec_str(order.price_x18 as int),
            r.amount@ == int_dec_str(order.amount as int),
            r.expiration@ == dec_str(order.expiration as nat),
            r.nonce@ == dec_str(order.nonce as nat),
    {
        SerializableOrder {
            sender: hex_encode(order.sender.bytes.as_slice()),
            price_x18: i128_to_dec(order.price_x18),
            amount: i128_to_dec(order.amount),
            expiration: u64_to_dec(order.expiration),
            nonce: u64_to_dec(order.nonce),
        }
    }
}

} // verus!
