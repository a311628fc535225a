use vstd::prelude::*;

verus! {

/// A value that a wire format can turn into bytes.
///
/// `serialize` is total: it hands back the encoding of every value of the type.
/// It is meant to be pure, so that one value always has one encoding.
pub trait Serializable {
    fn serialize(&self) -> Vec<u8>;
}

/// A value that a wire format can find again in a byte region.
///
/// The region handed to `deserialize` may be longer than the payload: the
/// format has to tell by itself where the value ends. `None` says that the
/// bytes do not represent a value of the type.
pub trait Deserializable: Sized {
    fn deserialize(data: &[u8]) -> Option<Self>;
}

/// `bytes` is an encoding that the wire format of `U` gives for `value`.
pub open spec fn encodes<U: Serializable>(value: &U, bytes: Vec<u8>) -> bool {
    call_ensures(U::serialize, (value,), bytes)
}

/// `decoded` is what the wire format of `T` makes of the region `data`.
pub open spec fn decodes<T: Deserializable>(data: &[u8], decoded: Option<T>) -> bool {
    call_ensures(T::deserialize, (data,), decoded)
}

/// The wire format of `T` is self-delimiting: from every region that starts
/// with an encoding of a value it reads that value back, whatever follows.
pub open spec fn self_delimiting<T: Serializable + Deserializable>() -> bool {
    forall|value: &T, bytes: Vec<u8>, data: &[u8], decoded: Option<T>|
        #![trigger encodes(value, bytes), decodes(data, decoded)]
        encodes(value, bytes) && bytes@.is_prefix_of(data@) && decodes(data, decoded)
            ==> decoded == Some(*value)
}

/// The wire format of `T` decodes by content alone: two regions that hold
/// the same bytes never have different readings.
pub open spec fn decodes_by_content<T: Deserializable>() -> bool {
    forall|one: &[u8], other: &[u8], first: Option<T>, second: Option<T>|
        #![trigger decodes(one, first), decodes(other, second)]
        one@ == other@ && decodes(one, first) && decodes(other, second) ==> first == second
}

} // verus!
