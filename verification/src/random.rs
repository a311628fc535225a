use crate::error::GuestError;
use crate::region::{copy_to_start, overwritten};
use vstd::prelude::*;

verus! {

/// Number of addresses that the 32-bit words of the boundary call can name.
pub const ADDRESS_SPACE: u64 = 4294967296;

/// A request for random bytes as it crosses the boundary: the address of a
/// guest-owned region and the number of bytes that the host is to write
/// there. It lives for one call.
#[derive(Clone, Copy, Debug, PartialEq, Eq)]
pub struct RandomRequest {
    /// Where the region starts in the guest's memory.
    pub address: u32,
    /// How many bytes the host is to write.
    pub length: u32,
}

/// The region of `length` bytes at `address` can be described to the host:
/// both numbers fit a 32-bit word, and the region ends within the addresses
/// that such a word can name.
pub open spec fn addressable(address: int, length: int) -> bool {
    &&& address <= u32::MAX
    &&& length <= u32::MAX
    &&& address + length <= ADDRESS_SPACE
}

impl RandomRequest {
    /// The request for the region of `length` bytes at `address`.
    ///
    /// A region that reaches beyond the addresses of the boundary call cannot
    /// be described to the host, so no fill of it is possible:
    /// `PlatformEntropyUnavailable`.
    pub fn new(address: usize, length: usize) -> (result: Result<RandomRequest, GuestError>)
        ensures
            addressable(address as int, length as int) ==> result == Ok::<
                RandomRequest,
                GuestError,
            >(RandomRequest { address: address as u32, length: length as u32 }),
            !addressable(address as int, length as int) ==> result == Err::<
                RandomRequest,
                GuestError,
            >(GuestError::PlatformEntropyUnavailable),
    {
        if address > u32::MAX as usize || length > u32::MAX as usize {
            return Err(GuestError::PlatformEntropyUnavailable);
        }
        if address as u64 + length as u64 > ADDRESS_SPACE {
            return Err(GuestError::PlatformEntropyUnavailable);
        }
        Ok(RandomRequest { address: address as u32, length: length as u32 })
    }
}

/// The host answered a request for `length` bytes into a buffer of
/// `capacity` bytes with `supplied` bytes, and that is a complete answer.
pub open spec fn fill_complete(capacity: int, length: int, supplied: int) -> bool {
    length <= capacity && supplied == length
}

/// Completes a request for `length` random bytes with the bytes that the host
/// supplied.
///
/// On success exactly the first `length` bytes of `buffer` are the supplied
/// bytes, and every byte behind them is the byte that was there. A single request
/// succeeds as a whole or not at all: when the host supplied another number
/// of bytes than was asked for, or more were asked for than the buffer holds,
/// the result is `PlatformEntropyUnavailable` and the buffer is untouched.
pub fn fill(buffer: &mut [u8], length: usize, supplied: &[u8]) -> (result: Result<(), GuestError>)
    ensures
        fill_complete(old(buffer)@.len() as int, length as int, supplied@.len() as int) ==> result
            == Ok::<(), GuestError>(()) && final(buffer)@ == overwritten(old(buffer)@, supplied@),
        !fill_complete(old(buffer)@.len() as int, length as int, supplied@.len() as int) ==> result
            == Err::<(), GuestError>(GuestError::PlatformEntropyUnavailable) && final(buffer)@
            == old(buffer)@,
{
    if length > buffer.len() || supplied.len() != length {
        return Err(GuestError::PlatformEntropyUnavailable);
    }
    copy_to_start(buffer, supplied);
    Ok(())
}

} // verus!
