//! Classification of transport send failures.
//!
//! The transport carries each frame as one binary message over a long-lived
//! stream. When a send fails, the failure must be classified into exactly two
//! kinds: one that makes the whole stream unusable and demands a full
//! reconnect, and one that is scoped to the single message and lets the loop
//! keep the connection and merely skip the frame.

use vstd::prelude::*;

verus! {

/// The shape of a transport error as the transport layer reports it, one
/// variant per error the layer distinguishes. The pipeline reads nothing of
/// an error but which variant it is, so the variant alone is carried here.
#[derive(Clone, Copy, Debug, PartialEq, Eq, Structural)]
pub enum TransportErrorKind {
    /// The connection was closed normally and is no longer usable.
    ConnectionClosed,
    /// An operation was attempted on an already-closed connection.
    AlreadyClosed,
    /// The underlying I/O channel failed.
    Io,
    /// A TLS-level failure.
    Tls,
    /// A buffer capacity limit was exceeded, e.g. an oversized message.
    Capacity,
    /// A protocol violation.
    Protocol,
    /// The write buffer is full.
    WriteBufferFull,
    /// A UTF-8 coding error.
    Utf8,
    /// An attack attempt was detected.
    AttackAttempt,
    /// An invalid URL.
    Url,
    /// An HTTP-level error during the handshake.
    Http,
    /// An HTTP format error.
    HttpFormat,
}

/// The two-way classification of a send failure.
#[derive(Clone, Copy, Debug, PartialEq, Eq, Structural)]
pub enum SendFailure {
    /// The stream itself is no longer usable; recover by a full reconnect.
    ConnectionLost,
    /// A failure scoped to this one message; recover by skipping the frame
    /// and sending the next one on the same connection.
    Transient,
}

/// A send failure makes the stream unusable exactly when the remote closed
/// it, the connection was already closed, or the underlying I/O channel
/// failed.
pub open spec fn is_connection_lost(k: TransportErrorKind) -> bool {
    k == TransportErrorKind::ConnectionClosed
        || k == TransportErrorKind::AlreadyClosed
        || k == TransportErrorKind::Io
}

/// Classifies a send-time transport error: `ConnectionLost` exactly for the
/// errors that mean the stream is dead, `Transient` for every other error.
pub fn classify_send_error(k: TransportErrorKind) -> (c: SendFailure)
    ensures
        c == SendFailure::ConnectionLost <==> is_connection_lost(k),
        c == SendFailure::Transient <==> !is_connection_lost(k),
{
    match k {
        TransportErrorKind::ConnectionClosed => SendFailure::ConnectionLost,
        TransportErrorKind::AlreadyClosed => SendFailure::ConnectionLost,
        TransportErrorKind::Io => SendFailure::ConnectionLost,
        _ => SendFailure::Transient,
    }
}

} // verus!
