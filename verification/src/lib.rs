//! The guest side of a call-marshalling protocol between a sandboxed module
//! and the process that hosts it.
//!
//! Arguments and results cross the sandbox boundary as serialized bytes in
//! one shared region, the [`MessageChannel`]. A wire format plugs in through
//! [`Serializable`] and [`Deserializable`]; [`write_message`] and
//! [`read_message`] move a typed value into the channel and out of it. The
//! module [`random`] completes requests for random bytes, which a sandboxed
//! module cannot make itself and asks of its host, and [`config`] holds the
//! rule by which a build selects its wire format.
//!
//! Every operation is synchronous and runs to completion: a module instance
//! serves one invocation at a time, and the channel has one owner.

pub mod channel;
pub mod config;
pub mod error;
pub mod laws;
pub mod random;
pub mod region;
pub mod serialization;

pub use channel::{read_message, write_message, MessageChannel, CAPACITY};
pub use config::{BuildConfiguration, SerializeBackend};
pub use error::GuestError;
pub use random::{fill, RandomRequest};
pub use serialization::{Deserializable, Serializable};
