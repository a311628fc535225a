use crate::error::GuestError;
use crate::region::{copy_to_start, overwritten};
use crate::serialization::{decodes, encodes, Deserializable, Serializable};
use vstd::prelude::*;

verus! {

/// Number of bytes in the region that host and guest share.
pub const CAPACITY: usize = 10240;

/// The byte region through which call arguments and results cross the
/// sandbox boundary.
///
/// The region has no framing of its own. A message starts at offset 0, and
/// its length travels beside the channel: `write` reports it to the host, and
/// a format that reads from the channel finds the end of its value itself.
/// One caller owns the channel at a time; whoever holds `&mut` to it is the
/// only one writing.
pub struct MessageChannel {
    /// The region itself. The host reads and writes it where it lies.
    pub bytes: [u8; CAPACITY],
}

impl View for MessageChannel {
    type V = Seq<u8>;

    open spec fn view(&self) -> Seq<u8> {
        self.bytes@
    }
}

/// What a channel that held `before` holds after a write of `payload` was
/// asked for: the payload over the start where it fits, else `before` itself.
pub open spec fn after_write(before: Seq<u8>, payload: Seq<u8>) -> Seq<u8> {
    if payload.len() <= CAPACITY {
        overwritten(before, payload)
    } else {
        before
    }
}

/// How a write of `payload` is answered: with the number of bytes written
/// where the payload fits the channel, else with the refusal.
pub open spec fn write_result(payload: Seq<u8>) -> Result<usize, GuestError> {
    if payload.len() <= CAPACITY {
        Ok(payload.len() as usize)
    } else {
        Err(GuestError::BufferOverflow)
    }
}

impl MessageChannel {
    /// A channel whose region is all zero.
    pub fn new() -> (channel: MessageChannel)
        ensures
            channel@ == Seq::new(CAPACITY as nat, |i: int| 0u8),
    {
        let channel = MessageChannel { bytes: [0u8; CAPACITY] };
        assert(channel@ =~= Seq::new(CAPACITY as nat, |i: int| 0u8));
        channel
    }

    /// Copies `payload` to the start of the region and reports its length.
    ///
    /// The length is tested before the first byte is copied: a payload longer
    /// than the region is refused with `BufferOverflow` and the region keeps
    /// what it held. Bytes behind the payload are never touched.
    pub fn write(&mut self, payload: &[u8]) -> (result: Result<usize, GuestError>)
        ensures
            result == write_result(payload@),
            final(self)@ == after_write(old(self)@, payload@),
    {
        let length: usize = payload.len();
        if length > CAPACITY {
            return Err(GuestError::BufferOverflow);
        }
        copy_to_start(&mut self.bytes, payload);
        Ok(length)
    }

    /// The whole region, of which a message is a prefix. Reading takes
    /// nothing out of the channel.
    pub fn read(&self) -> (contents: &[u8])
        ensures
            contents@ == self@,
    {
        self.bytes.as_slice()
    }
}

/// The result that a reader gets for what the format made of the region.
pub open spec fn delivered<T>(decoded: Option<T>) -> Result<T, GuestError> {
    match decoded {
        Some(value) => Ok(value),
        None => Err(GuestError::DeserializationError),
    }
}

/// A call of `write_message` with `message`, on a channel that held `before`,
/// may end with `result` and leave `after`: for some encoding that the format
/// gives for the message, the channel went through a write of those bytes,
/// and `result` is their number or the refusal.
pub open spec fn message_written<U: Serializable>(
    before: Seq<u8>,
    message: &U,
    result: Result<i32, GuestError>,
    after: Seq<u8>,
) -> bool {
    exists|bytes: Vec<u8>|
        {
            &&& #[trigger] encodes(message, bytes)
            &&& after == after_write(before, bytes@)
            &&& result == match write_result(bytes@) {
                Ok(length) => Ok::<i32, GuestError>(length as i32),
                Err(error) => Err(error),
            }
        }
}

/// A call of `read_message` on a channel that holds `region` may end with
/// `result`: the format was handed the whole region, and `result` is what it
/// made of it.
pub open spec fn message_read<T: Deserializable>(
    region: Seq<u8>,
    result: Result<T, GuestError>,
) -> bool {
    exists|data: &[u8], decoded: Option<T>|
        {
            &&& data@ == region
            &&& #[trigger] decodes(data, decoded)
            &&& result == delivered(decoded)
        }
}

/// Serializes `message` and writes the bytes to the start of the channel.
///
/// On success the result is the number of bytes written, which the host takes
/// as the length of the message. A message whose encoding is longer than the
/// channel is refused with `BufferOverflow`, and the channel keeps what it
/// held.
pub fn write_message<U: Serializable>(channel: &mut MessageChannel, message: &U) -> (result:
    Result<i32, GuestError>)
    ensures
        message_written(old(channel)@, message, result, final(channel)@),
{
    let bytes = message.serialize();
    assert(encodes(message, bytes));
    match channel.write(bytes.as_slice()) {
        Ok(length) => Ok(length as i32),
        Err(error) => Err(error),
    }
}

/// Deserializes a value from the whole region of the channel.
///
/// The channel is left as it was. Bytes that do not represent a value of the
/// type give `DeserializationError`.
pub fn read_message<T: Deserializable>(channel: &MessageChannel) -> (result: Result<T, GuestError>)
    ensures
        message_read(channel@, result),
{
    let data = channel.read();
    let decoded = T::deserialize(data);
    assert(decodes(data, decoded));
    match decoded {
        Some(value) => Ok(value),
        None => Err(GuestError::DeserializationError),
    }
}

} // verus!
