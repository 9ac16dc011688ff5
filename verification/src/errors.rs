//! Error kinds for the client: all fatal configuration and transport
//! failures, plus the non-fatal unrecognized-command report.
use vstd::prelude::*;

verus! {

/// Every failure the client can report. All variants but
/// `UnrecognizedCommand` are fatal for the session.
#[derive(Clone, Copy, PartialEq, Eq, Structural, Debug)]
pub enum WsError {
    /// A `Name:Value` header string without a colon, or with an invalid
    /// header name or value token.
    InvalidHeader,
    /// Certificate or key material that a recognized block could not be
    /// decoded from.
    MalformedCredential,
    /// A loaded certificate was rejected as a trust anchor.
    InvalidRoot,
    /// TLS or protocol upgrade failure while connecting.
    HandshakeFailure,
    /// A read or write error on the established connection.
    TransportFailure,
    /// A slash command that is none of ping, pong, close.
    UnrecognizedCommand,
}

impl WsError {
    /// A short description for the operator; the caller prefixes it.
    pub fn message(&self) -> (r: &'static str)
        ensures
            self is InvalidHeader ==> r@ == "header must contain ':'"@,
            self is MalformedCredential ==> r@ == "malformed certificate or key material"@,
            self is InvalidRoot ==> r@ == "certificate rejected as a trust anchor"@,
            self is HandshakeFailure ==> r@ == "TLS or protocol upgrade failed"@,
            self is TransportFailure ==> r@ == "connection read or write failed"@,
            self is UnrecognizedCommand ==> r@ == "Unrecognized slash command."@,
    {
        match self {
            WsError::InvalidHeader => "header must contain ':'",
            WsError::MalformedCredential => "malformed certificate or key material",
            WsError::InvalidRoot => "certificate rejected as a trust anchor",
            WsError::HandshakeFailure => "TLS or protocol upgrade failed",
            WsError::TransportFailure => "connection read or write failed",
            WsError::UnrecognizedCommand => "Unrecognized slash command.",
        }
    }
}

} // verus!
