use vstd::prelude::*;
use vstd::string::StringExecFns;

use crate::config::Config;
use crate::errors::ConnectError;
use crate::payload_signer::{Signer, AUTH_VALIDITY_MS};
use crate::payloads::auth_payload_spec;
use crate::eip712::valid_contract_hex;
use crate::signer::{is_sig_string, valid_private_key};
use crate::numfmt::dec_str;
use crate::type_conv::{hex_decode_seq, hex_seq, pad32, strip_0x, valid_hex32};

verus! {

/// Where the long-lived authenticated stream stands.  The session owns this
/// state exclusively; only the reconnect flag is shared with the supervisory
/// loop.
#[derive(Debug, Clone, Copy, PartialEq, Eq)]
pub enum SessionState {
    Disconnected,
    Connecting,
    Authenticating,
    Active,
    ReconnectPending,
}

/// Owns the long-lived authenticated stream: it connects, authenticates,
/// has a listener and a keepalive pinger started, detects failure through
/// the reconnect flag, and re-establishes the session when polled.  The
/// I/O itself lives with the caller, which reports each outcome as an event.
#[derive(Debug)]
pub struct SubscriptionClient {
    pub signer: Signer,
    pub sender_address: String,
    pub subscribe_url: String,
    pub state: SessionState,
    pub needs_reconnect: bool,
    pub listeners_started: u64,
    pub pingers_started: u64,
}

impl SubscriptionClient {
    /// Builds a session from the configuration: the held signer is built
    /// from the configured key and bound to the configured exchange
    /// contract.  Construction succeeds exactly on a non-negative chain id,
    /// a key the curve accepts and a 20-byte contract; each rejection is a
    /// signing error.
    pub fn new(config: &Config) -> (r: Result<SubscriptionClient, ConnectError>)
        ensures
            r is Ok <==> config.arbitrum_testnet_chain_id >= 0 && valid_private_key(
                config.private_key@,
            ) && valid_contract_hex(config.arbitrum_testnet_contract@),
            r matches Ok(s) ==> {
                &&& s.state is Disconnected
                &&& !s.needs_reconnect
                &&& s.listeners_started == 0
                &&& s.pingers_started == 0
                &&& s.sender_address@ == config.sender_address@
                &&& s.subscribe_url@ == config.arbitrum_vertex_testnet_subscribe_url@
                &&& s.signer.wf()
                &&& s.signer.spec_domain().name@ == "Vertex"@
                &&& s.signer.spec_domain().version@ == "0.0.1"@
                &&& s.signer.spec_domain().chain_id == config.arbitrum_testnet_chain_id as u64
                &&& s.signer.spec_domain().verifying_contract@ == hex_decode_seq(
                    strip_0x(config.arbitrum_testnet_contract@),
                )
            },
            r matches Err(e) ==> e is Signing,
    {
        if config.arbitrum_testnet_chain_id < 0 {
            return Err(ConnectError::Signing(String::from_str("chain id must not be negative")));
        }
        let signer = match Signer::new(
            config.private_key.as_str(),
            config.arbitrum_testnet_contract.as_str(),
            config.arbitrum_testnet_chain_id as u64,
        ) {
            Ok(s) => s,
            Err(e) => {
                return Err(e);
            },
        };
        Ok(
            SubscriptionClient {
                signer,
                sender_address: clone_string(&config.sender_address),
                subscribe_url: clone_string(&config.arbitrum_vertex_testnet_subscribe_url),
                state: SessionState::Disconnected,
                needs_reconnect: false,
                listeners_started: 0,
                pingers_started: 0,
            },
        )
    }

    /// Builds the authentication frame afresh for the given clock reading:
    /// the expiration is always relative to send time, never cached, so a
    /// reconnect cannot replay a stale payload.  The signed bytes and the
    /// transmitted text carry the same sender and expiration, and the frame
    /// is built exactly when the configured sender is well-formed hex of at
    /// most 32 bytes.
    pub fn build_auth_message(&self, now_ms: u64) -> (r: Result<String, ConnectError>)
        requires
            now_ms + AUTH_VALIDITY_MS <= u64::MAX,
        ensures
            r is Ok <==> valid_hex32(self.sender_address@),
            r matches Ok(m) ==> exists|sig: Seq<char>|
                is_sig_string(sig) && m@ == auth_payload_spec(
                    hex_seq(pad32(hex_decode_seq(strip_0x(self.sender_address@)))),
                    dec_str((now_ms + AUTH_VALIDITY_MS) as nat),
                    sig,
                ),
            r matches Err(e) ==> e is Signing,
    {
        self.signer.construct_ws_auth_payload(self.sender_address.as_str(), now_ms)
    }

    /// The caller starts dialing the streaming URL.
    pub fn begin_connect(&mut self)
        requires
            old(self).state is Disconnected,
        ensures
            final(self).state is Connecting,
            unchanged_but_state(*old(self), *final(self)),
    {
        self.state = SessionState::Connecting;
    }

    /// The dial succeeded; the authentication frame is being sent.
    pub fn on_connected(&mut self)
        requires
            old(self).state is Connecting,
        ensures
            final(self).state is Authenticating,
            unchanged_but_state(*old(self), *final(self)),
    {
        self.state = SessionState::Authenticating;
    }

    /// The dial or the authentication failed: back to disconnected, retried
    /// by the transport's own backoff.
    pub fn on_connect_failure(&mut self)
        requires
            old(self).state is Connecting || old(self).state is Authenticating,
        ensures
            final(self).state is Disconnected,
            unchanged_but_state(*old(self), *final(self)),
    {
        self.state = SessionState::Disconnected;
    }

    /// The exchange acknowledged the authentication: the session is active,
    /// and one listener and one keepalive pinger are started — exactly one
    /// of each, never duplicates.
    pub fn on_auth_acknowledged(&mut self)
        requires
            old(self).state is Authenticating,
            old(self).listeners_started < u64::MAX,
            old(self).pingers_started < u64::MAX,
        ensures
            final(self).state is Active,
            final(self).listeners_started == old(self).listeners_started + 1,
            final(self).pingers_started == old(self).pingers_started + 1,
            !final(self).needs_reconnect,
            final(self).signer == old(self).signer,
            final(self).sender_address == old(self).sender_address,
            final(self).subscribe_url == old(self).subscribe_url,
    {
        self.state = SessionState::Active;
        self.needs_reconnect = false;
        self.listeners_started = self.listeners_started + 1;
        self.pingers_started = self.pingers_started + 1;
    }

    /// A keepalive ping failed: the pinger sets the shared reconnect flag
    /// and terminates; it does not itself reconnect.
    pub fn on_ping_failure(&mut self)
        requires
            old(self).state is Active,
        ensures
            final(self).state is ReconnectPending,
            final(self).needs_reconnect,
            final(self).listeners_started == old(self).listeners_started,
            final(self).pingers_started == old(self).pingers_started,
            final(self).signer == old(self).signer,
            final(self).sender_address == old(self).sender_address,
            final(self).subscribe_url == old(self).subscribe_url,
    {
        self.state = SessionState::ReconnectPending;
        self.needs_reconnect = true;
    }

    /// One supervisory poll: when the reconnect flag is set, it is cleared
    /// and the session starts re-dialing; the caller then reports the dial
    /// and authentication outcomes as usual.  When the flag is clear,
    /// nothing changes.  Recovery latency is bounded by the poll interval:
    /// an accepted trade-off of the poll-based design.
    pub fn check_and_reconnect(&mut self) -> (redial: bool)
        ensures
            redial == old(self).needs_reconnect,
            redial ==> final(self).state is Connecting && !final(self).needs_reconnect
                && unchanged_but_flag_and_state(*old(self), *final(self)),
            !redial ==> *final(self) == *old(self),
    {
        if self.needs_reconnect {
            self.needs_reconnect = false;
            self.state = SessionState::Connecting;
            true
        } else {
            false
        }
    }
}

/// Everything except the state field is unchanged.
pub open spec fn unchanged_but_state(a: SubscriptionClient, b: SubscriptionClient) -> bool {
    &&& b.signer == a.signer
    &&& b.sender_address == a.sender_address
    &&& b.subscribe_url == a.subscribe_url
    &&& b.needs_reconnect == a.needs_reconnect
    &&& b.listeners_started == a.listeners_started
    &&& b.pingers_started == a.pingers_started
}

/// Everything except the state and the reconnect flag is unchanged.
pub open spec fn unchanged_but_flag_and_state(a: SubscriptionClient, b: SubscriptionClient) -> bool {
    &&& b.signer == a.signer
    &&& b.sender_address == a.sender_address
    &&& b.subscribe_url == a.subscribe_url
    &&& b.listeners_started == a.listeners_started
    &&& b.pingers_started == a.pingers_started
}

/// Copies a string value.
fn clone_string(s: &String) -> (r: String)
    ensures
        r@ == s@,
{
    String::from_str(s.as_str())
}

} // verus!
