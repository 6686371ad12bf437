//! Reasons for which a session ends in failure.

use vstd::prelude::*;
use crate::message::{Currency, Version};

verus! {

/// Every variant is fatal for the session it occurs in and is never retried.
#[derive(Clone, Copy, Debug, PartialEq, Eq, Structural)]
pub enum IndexerError {
    /// A handshake message could not be put on the outbound channel.
    HandshakeSendError,
    /// The handshake deadline passed before both peer messages arrived.
    HandshakeTimeout,
    /// The inbound channel closed before both peer messages arrived.
    HandshakeRecv,
    /// The peer sent something other than `Version` or `VersionAck`.
    HandshakeViolation,
    /// The peer declared our own nonce: the connection leads back to us.
    HandshakeNonceIdentical,
    /// The peer declared a version the local one cannot talk to.
    NotCompatible(Version),
    /// Filters were requested for a currency that is not served.
    NotSupportedCurrency(Currency),
}

} // verus!
