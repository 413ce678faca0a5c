use vstd::prelude::*;

verus! {

/// Failures a session can report.
#[derive(Debug, Clone, PartialEq, Eq, Structural)]
pub enum VoltError {
    /// The socket could not be opened, or an I/O operation on it failed.
    ConnectionError,
    /// The server rejected the credentials during the handshake.
    AuthFailed,
    /// A call was attempted while no socket is present.
    ConnectionNotAvailable,
    /// A frame was truncated or held unexpected bytes.
    DecodeError,
    /// The decoded response reports an application-level failure; the
    /// status byte sent by the server is kept.
    ServerReportedError(u8),
}

} // verus!
