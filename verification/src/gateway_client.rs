use vstd::prelude::*;
use vstd::string::StringExecFns;

use crate::config::Config;
use crate::errors::ConnectError;

verus! {

/// The first dial retry delay, in seconds.
pub const INITIAL_BACKOFF_S: u64 = 1;

/// The longest dial retry delay, in seconds.
pub const MAX_BACKOFF_S: u64 = 60;

/// The delay after a failed dial attempt: double the current one, capped at
/// a minute.  The dial loop itself never gives up.
pub fn next_backoff(current_s: u64) -> (r: u64)
    requires
        current_s <= MAX_BACKOFF_S,
    ensures
        r == if 2 * current_s <= MAX_BACKOFF_S {
            2 * current_s
        } else {
            MAX_BACKOFF_S as int
        },
{
    let doubled = current_s * 2;
    if doubled <= MAX_BACKOFF_S {
        doubled
    } else {
        MAX_BACKOFF_S
    }
}

/// An inbound WebSocket frame, reduced to the values the session logic
/// reads.
#[derive(Debug, Clone, PartialEq, Eq)]
pub enum Frame {
    Text(String),
    Binary(Vec<u8>),
    Ping(Vec<u8>),
    Pong(Vec<u8>),
    Close,
}

/// What one receive attempt on a connection yielded.
#[derive(Debug, Clone, PartialEq, Eq)]
pub enum RecvOutcome {
    Frame(Frame),
    TransportError(String),
    Closed,
}

/// Classifies the frame that answered a one-shot request: exactly a text
/// frame's payload comes back; any other outcome is a connection error, a
/// transport error's own text kept for diagnostics.
pub fn classify_response(outcome: RecvOutcome) -> (r: Result<String, ConnectError>)
    ensures
        match outcome {
            RecvOutcome::Frame(Frame::Text(t)) => r matches Ok(text) && text == t,
            RecvOutcome::TransportError(t) => r matches Err(e) && (e matches
                ConnectError::Connection(m) && m == t),
            _ => r matches Err(e) && e is Connection,
        },
{
    match outcome {
        RecvOutcome::Frame(Frame::Text(t)) => Ok(t),
        RecvOutcome::Frame(_) => Err(
            ConnectError::Connection(String::from_str("received a non-text message")),
        ),
        RecvOutcome::TransportError(t) => Err(ConnectError::Connection(t)),
        RecvOutcome::Closed => Err(
            ConnectError::Connection(String::from_str("connection closed unexpectedly")),
        ),
    }
}

/// Performs one-shot request/response exchanges against the gateway: each
/// call owns a fresh connection, dialed from the configured URL.  The I/O
/// itself lives with the caller; this type holds the configuration and the
/// response classification.
#[derive(Debug)]
pub struct GatewayClient {
    pub config: Config,
}

impl GatewayClient {
    /// Builds a client around the configuration.
    pub fn new(config: Config) -> (r: GatewayClient)
        ensures
            r.config == config,
    {
        GatewayClient { config }
    }
}

} // verus!
