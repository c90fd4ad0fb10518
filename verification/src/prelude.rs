//! The most used types and traits, for `use gb26875::prelude::*`.
pub use crate::builder::data_unit::{
    AnalogValueBuilder, ComponentStatusBuilder, DataUnitBuilder, SystemStatusBuilder,
};
pub use crate::builder::packet::PacketBuilder;
pub use crate::codec::traits::{Codec, StreamCodec};
pub use crate::codec::{DataUnitCodec, PacketCodec};
pub use crate::data_unit::standard::{downstream, upstream};
pub use crate::data_unit::{DataUnit, GenericDataUnit};
pub use crate::error::{EncodeError, EncodeResult, ExtensionError, ParseError, ParseResult};
pub use crate::frame::{ControlUnit, Timestamp};
pub use crate::info_object::{
    AnalogType as InfoAnalogType, AnalogValue, ComponentConfig, ComponentStatus, DeviceConfig,
    DeviceOperation, DeviceVersion, FireSystemConfig, FireSystemOperation, FireSystemVersion,
    InfoObject, SystemStatus,
};
pub use crate::parser::{DataValidator, FrameDetector, PacketParser};
pub use crate::protocol::{Command, ComponentType, DataUnitType, ProtocolVersion, SystemType};
pub use crate::{Packet, VERSION};
