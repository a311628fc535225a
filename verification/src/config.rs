use crate::error::GuestError;
use vstd::prelude::*;

verus! {

/// The wire formats that a build can select.
#[derive(Clone, Copy, Debug, PartialEq, Eq)]
pub enum SerializeBackend {
    /// serde with bincode.
    Bincode,
    /// serde with serde_json.
    Json,
    /// nanoserde's JSON.
    NanoserdeJson,
}

/// The options that a build of a module is made with.
///
/// Exactly one of the three `serialize_` options has to be on: the format is
/// chosen once, when the module is built, and nothing switches between
/// formats while it runs. `inject_getrandom` turns on the delegation of
/// random bytes to the host and is off unless asked for.
#[derive(Clone, Copy, Debug, PartialEq, Eq)]
pub struct BuildConfiguration {
    /// Messages are encoded with serde and bincode.
    pub serialize_bincode: bool,
    /// Messages are encoded with serde and serde_json.
    pub serialize_json: bool,
    /// Messages are encoded with nanoserde's JSON.
    pub serialize_nanoserde_json: bool,
    /// Random bytes are asked of the host.
    pub inject_getrandom: bool,
}

impl BuildConfiguration {
    /// Whether the configuration turns `backend` on.
    pub open spec fn selects(&self, backend: SerializeBackend) -> bool {
        match backend {
            SerializeBackend::Bincode => self.serialize_bincode,
            SerializeBackend::Json => self.serialize_json,
            SerializeBackend::NanoserdeJson => self.serialize_nanoserde_json,
        }
    }

    /// The number of formats that the configuration turns on.
    pub open spec fn selected(&self) -> nat {
        let bincode: nat = if self.serialize_bincode { 1 } else { 0 };
        let json: nat = if self.serialize_json { 1 } else { 0 };
        let nanoserde_json: nat = if self.serialize_nanoserde_json { 1 } else { 0 };
        bincode + json + nanoserde_json
    }

    /// The one format of a valid configuration.
    ///
    /// A configuration with no format, or with two or three, is refused with
    /// `ConfigurationError`. This is decided from the options alone, before
    /// any channel exists.
    pub fn validate(&self) -> (result: Result<SerializeBackend, GuestError>)
        ensures
            self.selected() == 1 ==> result is Ok && self.selects(result->Ok_0),
            self.selected() != 1 ==> result == Err::<SerializeBackend, GuestError>(
                GuestError::ConfigurationError,
            ),
    {
        match (self.serialize_bincode, self.serialize_json, self.serialize_nanoserde_json) {
            (true, false, false) => Ok(SerializeBackend::Bincode),
            (false, true, false) => Ok(SerializeBackend::Json),
            (false, false, true) => Ok(SerializeBackend::NanoserdeJson),
            _ => Err(GuestError::ConfigurationError),
        }
    }
}

impl Default for BuildConfiguration {
    /// bincode alone, without the delegation of random bytes.
    fn default() -> (configuration: BuildConfiguration)
        ensures
            configuration == (BuildConfiguration {
                serialize_bincode: true,
                serialize_json: false,
                serialize_nanoserde_json: false,
                inject_getrandom: false,
            }),
    {
        BuildConfiguration {
            serialize_bincode: true,
            serialize_json: false,
            serialize_nanoserde_json: false,
            inject_getrandom: false,
        }
    }
}

} // verus!
