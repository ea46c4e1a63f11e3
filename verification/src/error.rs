use vstd::prelude::*;

verus! {

/// What can go wrong in one exchange once the process is up.
#[derive(Clone, Copy, Debug, PartialEq, Eq, Structural)]
pub enum ProtocolError {
    /// The key is empty or holds a byte that is not an ASCII letter.
    InvalidKey,
    /// No delimiter stands within the bytes that were received.
    MalformedFrame,
    /// Key, delimiter and message together exceed the transmission buffer.
    FrameTooLarge,
    /// The transport could not be connected.
    ConnectionError,
    /// The transport failed to take the whole frame in one write.
    SendError,
    /// The transport failed while a reply or a request was awaited.
    ReceiveError,
}

} // verus!
