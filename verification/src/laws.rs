use crate::channel::{after_write, message_read, message_written, write_result, CAPACITY};
use crate::error::GuestError;
use crate::region::overwritten;
use crate::serialization::{decodes_by_content, self_delimiting, Deserializable, Serializable};
use vstd::prelude::*;

verus! {

/// Exactness of a copy over the start of a region: the region keeps its
/// length, its first bytes are the payload, and every byte behind the payload
/// is the byte that was there.
pub proof fn lemma_overwritten_exact(before: Seq<u8>, payload: Seq<u8>)
    requires
        payload.len() <= before.len(),
    ensures
        overwritten(before, payload).len() == before.len(),
        forall|i: int| 0 <= i < payload.len() ==> overwritten(before, payload)[i] == payload[i],
        forall|i: int|
            payload.len() <= i < before.len() ==> overwritten(before, payload)[i] == before[i],
{
}

/// Capacity boundary: a payload of exactly `CAPACITY` bytes is written and
/// takes the whole channel; a payload of one byte more is refused with
/// `BufferOverflow` and leaves the channel as it was.
pub proof fn lemma_capacity_boundary(before: Seq<u8>, payload: Seq<u8>)
    requires
        before.len() == CAPACITY,
    ensures
        payload.len() == CAPACITY ==> write_result(payload) == Ok::<usize, GuestError>(CAPACITY)
            && after_write(before, payload) == payload,
        payload.len() == CAPACITY + 1 ==> write_result(payload) == Err::<usize, GuestError>(
            GuestError::BufferOverflow,
        ) && after_write(before, payload) == before,
{
    if payload.len() == CAPACITY {
        assert(after_write(before, payload) =~= payload);
    }
}

/// Round trip: with a self-delimiting format, a value whose encoding fits the
/// channel is read back from it as it was written, whatever the channel held
/// before.
pub proof fn lemma_round_trip<T: Serializable + Deserializable>(
    before: Seq<u8>,
    value: &T,
    written: Result<i32, GuestError>,
    after: Seq<u8>,
    read: Result<T, GuestError>,
)
    requires
        self_delimiting::<T>(),
        message_written(before, value, written, after),
        written is Ok,
        message_read(after, read),
    ensures
        read == Ok::<T, GuestError>(*value),
{
}

/// Reading takes nothing out of the channel: with a format that decodes by
/// content alone, two reads of one region give the same result.
pub proof fn lemma_read_repeats<T: Deserializable>(
    region: Seq<u8>,
    first: Result<T, GuestError>,
    second: Result<T, GuestError>,
)
    requires
        decodes_by_content::<T>(),
        message_read(region, first),
        message_read(region, second),
    ensures
        first == second,
{
}

} // verus!
