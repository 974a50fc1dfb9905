use vstd::prelude::*;

verus! {

/// Classified failure value: every failure path in the library produces one of
/// these four kinds, and none is ever silently discarded.
#[derive(Debug, Clone, PartialEq, Eq)]
pub enum ConnectError {
    /// Dial, send or receive failed, a non-text frame arrived, or the peer
    /// closed the connection before a reply.
    Connection(String),
    /// Malformed private key, hash construction failure, or an address that
    /// does not decode.
    Signing(String),
    /// A required request field is missing, or the query or order type is not
    /// supported.
    Protocol(String),
    /// A gateway response does not match the expected shape; the raw text is
    /// kept for diagnostics.
    Decode(String),
}

impl ConnectError {
    /// The diagnostic text carried by the error, whatever its kind.
    pub fn message(&self) -> (r: String)
        ensures
            r@ == match self {
                ConnectError::Connection(m) => m@,
                ConnectError::Signing(m) => m@,
                ConnectError::Protocol(m) => m@,
                ConnectError::Decode(m) => m@,
            },
    {
        match self {
            ConnectError::Connection(m) => m.clone(),
            ConnectError::Signing(m) => m.clone(),
            ConnectError::Protocol(m) => m.clone(),
            ConnectError::Decode(m) => m.clone(),
        }
    }

    /// True exactly on the connection-failure kind.
    pub fn is_connection(&self) -> (r: bool)
        ensures
            r == (self is Connection),
    {
        match self {
            ConnectError::Connection(_) => true,
            _ => false,
        }
    }
}

} // verus!
