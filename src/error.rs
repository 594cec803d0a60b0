//! Status codes shared by every entry point.
use vstd::prelude::*;

verus! {

/// The outcome of a setter or the error that a task resolved with.
#[derive(Debug, Clone, Copy, PartialEq, Eq, Structural)]
pub enum hyper_code {
    /// All is well.
    HYPERE_OK,
    /// A function argument was invalid (an absent handle).
    HYPERE_INVALID_ARG,
    /// The transport or the protocol negotiation failed during a handshake.
    HYPERE_HANDSHAKE_FAILED,
    /// The connection closed, or the peer rejected the request, during a send.
    HYPERE_SEND_FAILED,
    /// The feature asked for is not built into this library.
    HYPERE_FEATURE_NOT_ENABLED,
}

} // verus!
