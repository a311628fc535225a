use vstd::prelude::*;

verus! {

/// The ways in which an operation of the guest side can fail.
///
/// Every failure is local and synchronous: it is handed to the immediate
/// caller and nothing is retried.
#[derive(Clone, Copy, Debug, PartialEq, Eq)]
pub enum GuestError {
    /// A serialized payload is longer than the channel's capacity.
    BufferOverflow,
    /// The channel's bytes do not represent a value of the expected type.
    DeserializationError,
    /// The build selects no serialization backend, or more than one.
    ConfigurationError,
    /// The host did not supply the random bytes that were asked for.
    PlatformEntropyUnavailable,
}

} // verus!
