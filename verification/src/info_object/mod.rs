//! Information objects of the application data unit (GB26875.3 8.2.1):
//! system and component states, analog values, operations, software
//! versions and configurations, each with its fixed-size byte layout.
pub mod analog_value;
pub mod component_status;
pub mod config;
pub mod operation;
pub mod system_status;
pub mod version;

use crate::error::{EncodeResult, ParseResult};
use crate::frame::timestamp::Timestamp;
use vstd::prelude::*;

pub use analog_value::{AnalogType, AnalogValue};
pub use component_status::ComponentStatus;
pub use config::{ComponentConfig, DeviceConfig, FireSystemConfig};
pub use operation::{DeviceOperation, FireSystemOperation};
pub use system_status::SystemStatus;
pub use version::{DeviceVersion, FireSystemVersion};

verus! {

/// Common interface of the information objects: their type code, a short
/// description, their byte encoding and decoding, and their time label.
pub trait InfoObject: Sized {
    /// The object's type code.
    fn object_type(&self) -> u8;

    /// A short description of the object.
    fn description(&self) -> Option<&str> {
        None
    }

    /// The object's bytes.
    fn encode(&self) -> EncodeResult<Vec<u8>>;

    /// Reads an object from the front of `data`.
    fn parse(data: &[u8]) -> ParseResult<Self>;

    /// The object's time label, when it has one.
    fn timestamp(&self) -> Option<&Timestamp> {
        None
    }
}

} // verus!
