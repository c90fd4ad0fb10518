//! Application data units: the type flag identifier, the standard upstream
//! and downstream data units, and a union of all of them.
pub mod custom;
pub mod identifier;
pub mod standard;

use crate::error::{EncodeResult, ParseError, ParseResult};
use crate::protocol::DataUnitType;
use crate::text::{decimal_text, push_decimal};
use vstd::prelude::*;
use vstd::string::StringExecFns;

pub use custom::{RawCustomDataUnit, RegistryError};
pub use identifier::{DataUnitIdentifier, DataUnitIdentifierParser};
pub use standard::{downstream, upstream};


verus! {

/// Common interface of the application data units: their type flag, their
/// byte encoding and decoding, and their own consistency check.
pub trait DataUnit {
    /// The bytes `encode` writes.
    spec fn spec_encoding(&self) -> Seq<u8>;

    /// Whether `encode` succeeds.
    spec fn spec_encodable(&self) -> bool;

    /// The data unit type flag.
    fn data_unit_type(&self) -> DataUnitType;

    /// The data unit's bytes.
    fn encode(&self) -> (r: EncodeResult<Vec<u8>>)
        ensures
            r is Ok <==> self.spec_encodable(),
            r matches Ok(v) ==> v@ == self.spec_encoding(),
    ;

    /// Reads a data unit from the front of `data`.
    fn parse(data: &[u8]) -> ParseResult<Self>
        where
            Self: Sized,
    ;

    /// Checks the data unit's own consistency; by default it always passes.
    fn validate(&self) -> (r: ParseResult<()>)
        default_ensures
            r is Ok,
    {
        Ok(())
    }

    /// Length of the encoding, zero when encoding fails.
    fn byte_length(&self) -> (r: usize)
        ensures
            r == (if self.spec_encodable() {
                self.spec_encoding().len()
            } else {
                0
            }),
    {
        match self.encode() {
            Ok(b) => b.len(),
            Err(_) => 0,
        }
    }
}


/// Any application data unit: one of the standard types, a registered
/// extension, raw bytes of another type, or bytes of an unknown type.
#[derive(Debug, Clone)]
pub enum GenericDataUnit {
    /// type UploadSystemStatus
    UploadSystemStatus(upstream::UploadSystemStatus),
    /// type UploadComponentStatus
    UploadComponentStatus(upstream::UploadComponentStatus),
    /// type UploadAnalogValue
    UploadAnalogValue(upstream::UploadAnalogValue),
    /// type UploadOperationInfo
    UploadOperationInfo(upstream::UploadOperationInfo),
    /// type UploadSoftwareVersion
    UploadSoftwareVersion(upstream::UploadSoftwareVersion),
    /// type UploadSystemConfig
    UploadSystemConfig(upstream::UploadSystemConfig),
    /// type UploadComponentConfig
    UploadComponentConfig(upstream::UploadComponentConfig),
    /// type UploadSystemTime
    UploadSystemTime(upstream::UploadSystemTime),
    /// type UploadDeviceStatus
    UploadDeviceStatus(upstream::UploadDeviceStatus),
    /// type UploadDeviceOperation
    UploadDeviceOperation(upstream::UploadDeviceOperation),
    /// type UploadDeviceVersion
    UploadDeviceVersion(upstream::UploadDeviceVersion),
    /// type UploadDeviceConfig
    UploadDeviceConfig(upstream::UploadDeviceConfig),
    /// type UploadDeviceTime
    UploadDeviceTime(upstream::UploadDeviceTime),
    /// type ReadSystemStatus
    ReadSystemStatus(downstream::ReadSystemStatus),
    /// type ReadComponentStatus
    ReadComponentStatus(downstream::ReadComponentStatus),
    /// type ReadAnalogValue
    ReadAnalogValue(downstream::ReadAnalogValue),
    /// type ReadOperationInfo
    ReadOperationInfo(downstream::ReadOperationInfo),
    /// type ReadSoftwareVersion
    ReadSoftwareVersion(downstream::ReadSoftwareVersion),
    /// type ReadSystemConfig
    ReadSystemConfig(downstream::ReadSystemConfig),
    /// type ReadComponentConfig
    ReadComponentConfig(downstream::ReadComponentConfig),
    /// type ReadSystemTime
    ReadSystemTime(downstream::ReadSystemTime),
    /// type ReadDeviceStatus
    ReadDeviceStatus(downstream::ReadDeviceStatus),
    /// type ReadDeviceOperation
    ReadDeviceOperation(downstream::ReadDeviceOperation),
    /// type ReadDeviceVersion
    ReadDeviceVersion(downstream::ReadDeviceVersion),
    /// type ReadDeviceConfig
    ReadDeviceConfig(downstream::ReadDeviceConfig),
    /// type ReadDeviceTime
    ReadDeviceTime(downstream::ReadDeviceTime),
    /// type InitializeDevice
    InitializeDevice(downstream::InitializeDevice),
    /// type SyncDeviceClock
    SyncDeviceClock(downstream::SyncDeviceClock),
    /// type PatrolCommand
    PatrolCommand(downstream::PatrolCommand),
    /// a data unit of a registered extension type
    Extension {
        /// its type code
        type_code: u8,
        /// its bytes
        data: Vec<u8>,
        /// the extension's description
        description: String,
    },
    /// bytes of a type without a standard decoder
    Raw {
        /// the type
        data_type: DataUnitType,
        /// the bytes
        data: Vec<u8>,
    },
    /// bytes of an unknown type
    Unknown {
        /// the type
        data_unit_type: DataUnitType,
        /// the bytes
        raw_data: Vec<u8>,
    },
}

/// The outcome of the standard decoder of type `t` on `b`; a type without
/// one keeps the raw bytes.
pub open spec fn standard_parse_ok(t: DataUnitType, b: Seq<u8>, r: ParseResult<GenericDataUnit>) -> bool {
    match t {
        DataUnitType::UploadSystemStatus => match r {
            Ok(GenericDataUnit::UploadSystemStatus(u)) => upstream::upload_system_status_parse_ok(b, Ok(u)),
            Ok(_) => false,
            Err(e) => upstream::upload_system_status_parse_ok(b, Err(e)),
        },
        DataUnitType::UploadComponentStatus => match r {
            Ok(GenericDataUnit::UploadComponentStatus(u)) => upstream::upload_component_status_parse_ok(b, Ok(u)),
            Ok(_) => false,
            Err(e) => upstream::upload_component_status_parse_ok(b, Err(e)),
        },
        DataUnitType::UploadAnalogValue => match r {
            Ok(GenericDataUnit::UploadAnalogValue(u)) => upstream::upload_analog_value_parse_ok(b, Ok(u)),
            Ok(_) => false,
            Err(e) => upstream::upload_analog_value_parse_ok(b, Err(e)),
        },
        DataUnitType::UploadOperationInfo => match r {
            Ok(GenericDataUnit::UploadOperationInfo(u)) => upstream::upload_operation_info_parse_ok(b, Ok(u)),
            Ok(_) => false,
            Err(e) => upstream::upload_operation_info_parse_ok(b, Err(e)),
        },
        DataUnitType::UploadSoftwareVersion => match r {
            Ok(GenericDataUnit::UploadSoftwareVersion(u)) => upstream::upload_software_version_parse_ok(b, Ok(u)),
            Ok(_) => false,
            Err(e) => upstream::upload_software_version_parse_ok(b, Err(e)),
        },
        DataUnitType::UploadSystemConfig => match r {
            Ok(GenericDataUnit::UploadSystemConfig(u)) => upstream::upload_system_config_parse_ok(b, Ok(u)),
            Ok(_) => false,
            Err(e) => upstream::upload_system_config_parse_ok(b, Err(e)),
        },
        DataUnitType::UploadComponentConfig => match r {
            Ok(GenericDataUnit::UploadComponentConfig(u)) => upstream::upload_component_config_parse_ok(b, Ok(u)),
            Ok(_) => false,
            Err(e) => upstream::upload_component_config_parse_ok(b, Err(e)),
        },
        DataUnitType::UploadSystemTime => match r {
            Ok(GenericDataUnit::UploadSystemTime(u)) => upstream::upload_system_time_parse_ok(b, Ok(u)),
            Ok(_) => false,
            Err(e) => upstream::upload_system_time_parse_ok(b, Err(e)),
        },
        DataUnitType::UploadDeviceStatus => match r {
            Ok(GenericDataUnit::UploadDeviceStatus(u)) => upstream::upload_device_status_parse_ok(b, Ok(u)),
            Ok(_) => false,
            Err(e) => upstream::upload_device_status_parse_ok(b, Err(e)),
        },
        DataUnitType::UploadDeviceOperation => match r {
            Ok(GenericDataUnit::UploadDeviceOperation(u)) => upstream::upload_device_operation_parse_ok(b, Ok(u)),
            Ok(_) => false,
            Err(e) => upstream::upload_device_operation_parse_ok(b, Err(e)),
        },
        DataUnitType::UploadDeviceVersion => match r {
            Ok(GenericDataUnit::UploadDeviceVersion(u)) => upstream::upload_device_version_parse_ok(b, Ok(u)),
            Ok(_) => false,
            Err(e) => upstream::upload_device_version_parse_ok(b, Err(e)),
        },
        DataUnitType::UploadDeviceConfig => match r {
            Ok(GenericDataUnit::UploadDeviceConfig(u)) => upstream::upload_device_config_parse_ok(b, Ok(u)),
            Ok(_) => false,
            Err(e) => upstream::upload_device_config_parse_ok(b, Err(e)),
        },
        DataUnitType::UploadDeviceTime => match r {
            Ok(GenericDataUnit::UploadDeviceTime(u)) => upstream::upload_device_time_parse_ok(b, Ok(u)),
            Ok(_) => false,
            Err(e) => upstream::upload_device_time_parse_ok(b, Err(e)),
        },
        DataUnitType::ReadSystemStatus => match r {
            Ok(GenericDataUnit::ReadSystemStatus(u)) => downstream::read_system_status_parse_ok(b, Ok(u)),
            Ok(_) => false,
            Err(e) => downstream::read_system_status_parse_ok(b, Err(e)),
        },
        DataUnitType::ReadComponentStatus => match r {
            Ok(GenericDataUnit::ReadComponentStatus(u)) => downstream::read_component_status_parse_ok(b, Ok(u)),
            Ok(_) => false,
            Err(e) => downstream::read_component_status_parse_ok(b, Err(e)),
        },
        DataUnitType::ReadAnalogValue => match r {
            Ok(GenericDataUnit::ReadAnalogValue(u)) => downstream::read_analog_value_parse_ok(b, Ok(u)),
            Ok(_) => false,
            Err(e) => downstream::read_analog_value_parse_ok(b, Err(e)),
        },
        DataUnitType::ReadOperationInfo => match r {
            Ok(GenericDataUnit::ReadOperationInfo(u)) => downstream::read_operation_info_parse_ok(b, Ok(u)),
            Ok(_) => false,
            Err(e) => downstream::read_operation_info_parse_ok(b, Err(e)),
        },
        DataUnitType::ReadSoftwareVersion => match r {
            Ok(GenericDataUnit::ReadSoftwareVersion(u)) => downstream::read_software_version_parse_ok(b, Ok(u)),
            Ok(_) => false,
            Err(e) => downstream::read_software_version_parse_ok(b, Err(e)),
        },
        DataUnitType::ReadSystemConfig => match r {
            Ok(GenericDataUnit::ReadSystemConfig(u)) => downstream::read_system_config_parse_ok(b, Ok(u)),
            Ok(_) => false,
            Err(e) => downstream::read_system_config_parse_ok(b, Err(e)),
        },
        DataUnitType::ReadComponentConfig => match r {
            Ok(GenericDataUnit::ReadComponentConfig(u)) => downstream::read_component_config_parse_ok(b, Ok(u)),
            Ok(_) => false,
            Err(e) => downstream::read_component_config_parse_ok(b, Err(e)),
        },
        DataUnitType::ReadSystemTime => match r {
            Ok(GenericDataUnit::ReadSystemTime(u)) => downstream::read_system_time_parse_ok(b, Ok(u)),
            Ok(_) => false,
            Err(e) => downstream::read_system_time_parse_ok(b, Err(e)),
        },
        DataUnitType::ReadDeviceStatus => match r {
            Ok(GenericDataUnit::ReadDeviceStatus(_)) => downstream::command_bytes_parse_ok(b, true, None),
            Ok(_) => false,
            Err(e) => downstream::command_bytes_parse_ok(b, false, Some(e)),
        },
        DataUnitType::ReadDeviceOperation => match r {
            Ok(GenericDataUnit::ReadDeviceOperation(u)) => downstream::read_device_operation_parse_ok(b, Ok(u)),
            Ok(_) => false,
            Err(e) => downstream::read_device_operation_parse_ok(b, Err(e)),
        },
        DataUnitType::ReadDeviceVersion => match r {
            Ok(GenericDataUnit::ReadDeviceVersion(_)) => downstream::command_bytes_parse_ok(b, true, None),
            Ok(_) => false,
            Err(e) => downstream::command_bytes_parse_ok(b, false, Some(e)),
        },
        DataUnitType::ReadDeviceConfig => match r {
            Ok(GenericDataUnit::ReadDeviceConfig(_)) => downstream::command_bytes_parse_ok(b, true, None),
            Ok(_) => false,
            Err(e) => downstream::command_bytes_parse_ok(b, false, Some(e)),
        },
        DataUnitType::ReadDeviceTime => match r {
            Ok(GenericDataUnit::ReadDeviceTime(_)) => downstream::command_bytes_parse_ok(b, true, None),
            Ok(_) => false,
            Err(e) => downstream::command_bytes_parse_ok(b, false, Some(e)),
        },
        DataUnitType::InitializeDevice => match r {
            Ok(GenericDataUnit::InitializeDevice(_)) => downstream::command_bytes_parse_ok(b, true, None),
            Ok(_) => false,
            Err(e) => downstream::command_bytes_parse_ok(b, false, Some(e)),
        },
        DataUnitType::SyncDeviceClock => match r {
            Ok(GenericDataUnit::SyncDeviceClock(u)) => downstream::sync_device_clock_parse_ok(b, Ok(u)),
            Ok(_) => false,
            Err(e) => downstream::sync_device_clock_parse_ok(b, Err(e)),
        },
        DataUnitType::PatrolCommand => match r {
            Ok(GenericDataUnit::PatrolCommand(_)) => downstream::command_bytes_parse_ok(b, true, None),
            Ok(_) => false,
            Err(e) => downstream::command_bytes_parse_ok(b, false, Some(e)),
        },
        _ => r matches Ok(GenericDataUnit::Raw { data_type, data }) && data_type == t && data@ == b,
    }
}

/// Whether the standard decoder of type `t` refuses `b`.
pub open spec fn standard_parse_refused(t: DataUnitType, b: Seq<u8>) -> bool {
    exists|e: ParseError| #[trigger] standard_parse_ok(t, b, Err(e))
}

/// The outcome of decoding `b` as a data unit of type `t`: what the standard
/// decoder of the type gives, and the raw bytes when it refuses them or the
/// type has none.
pub open spec fn generic_parse_ok(t: DataUnitType, b: Seq<u8>, r: ParseResult<GenericDataUnit>) -> bool {
    if standard_parse_refused(t, b) {
        r matches Ok(GenericDataUnit::Raw { data_type, data }) && data_type == t && data@ == b
    } else {
        r is Ok && standard_parse_ok(t, b, r)
    }
}

impl GenericDataUnit {
    /// The data unit's type.
    pub open spec fn spec_type(self) -> DataUnitType {
        match self {
            GenericDataUnit::UploadSystemStatus(_) => DataUnitType::UploadSystemStatus,
            GenericDataUnit::UploadComponentStatus(_) => DataUnitType::UploadComponentStatus,
            GenericDataUnit::UploadAnalogValue(_) => DataUnitType::UploadAnalogValue,
            GenericDataUnit::UploadOperationInfo(_) => DataUnitType::UploadOperationInfo,
            GenericDataUnit::UploadSoftwareVersion(_) => DataUnitType::UploadSoftwareVersion,
            GenericDataUnit::UploadSystemConfig(_) => DataUnitType::UploadSystemConfig,
            GenericDataUnit::UploadComponentConfig(_) => DataUnitType::UploadComponentConfig,
            GenericDataUnit::UploadSystemTime(_) => DataUnitType::UploadSystemTime,
            GenericDataUnit::UploadDeviceStatus(_) => DataUnitType::UploadDeviceStatus,
            GenericDataUnit::UploadDeviceOperation(_) => DataUnitType::UploadDeviceOperation,
            GenericDataUnit::UploadDeviceVersion(_) => DataUnitType::UploadDeviceVersion,
            GenericDataUnit::UploadDeviceConfig(_) => DataUnitType::UploadDeviceConfig,
            GenericDataUnit::UploadDeviceTime(_) => DataUnitType::UploadDeviceTime,
            GenericDataUnit::ReadSystemStatus(_) => DataUnitType::ReadSystemStatus,
            GenericDataUnit::ReadComponentStatus(_) => DataUnitType::ReadComponentStatus,
            GenericDataUnit::ReadAnalogValue(_) => DataUnitType::ReadAnalogValue,
            GenericDataUnit::ReadOperationInfo(_) => DataUnitType::ReadOperationInfo,
            GenericDataUnit::ReadSoftwareVersion(_) => DataUnitType::ReadSoftwareVersion,
            GenericDataUnit::ReadSystemConfig(_) => DataUnitType::ReadSystemConfig,
            GenericDataUnit::ReadComponentConfig(_) => DataUnitType::ReadComponentConfig,
            GenericDataUnit::ReadSystemTime(_) => DataUnitType::ReadSystemTime,
            GenericDataUnit::ReadDeviceStatus(_) => DataUnitType::ReadDeviceStatus,
            GenericDataUnit::ReadDeviceOperation(_) => DataUnitType::ReadDeviceOperation,
            GenericDataUnit::ReadDeviceVersion(_) => DataUnitType::ReadDeviceVersion,
            GenericDataUnit::ReadDeviceConfig(_) => DataUnitType::ReadDeviceConfig,
            GenericDataUnit::ReadDeviceTime(_) => DataUnitType::ReadDeviceTime,
            GenericDataUnit::InitializeDevice(_) => DataUnitType::InitializeDevice,
            GenericDataUnit::SyncDeviceClock(_) => DataUnitType::SyncDeviceClock,
            GenericDataUnit::PatrolCommand(_) => DataUnitType::PatrolCommand,
            GenericDataUnit::Extension { type_code, .. } => DataUnitType::UserDefined(type_code),
            GenericDataUnit::Raw { data_type, .. } => data_type,
            GenericDataUnit::Unknown { data_unit_type, .. } => data_unit_type,
        }
    }

    /// The data unit's bytes.
    pub open spec fn spec_encoding(self) -> Seq<u8> {
        match self {
            GenericDataUnit::UploadSystemStatus(u) => u.spec_encoding(),
            GenericDataUnit::UploadComponentStatus(u) => u.spec_encoding(),
            GenericDataUnit::UploadAnalogValue(u) => u.spec_encoding(),
            GenericDataUnit::UploadOperationInfo(u) => u.spec_encoding(),
            GenericDataUnit::UploadSoftwareVersion(u) => u.spec_encoding(),
            GenericDataUnit::UploadSystemConfig(u) => u.spec_encoding(),
            GenericDataUnit::UploadComponentConfig(u) => u.spec_encoding(),
            GenericDataUnit::UploadSystemTime(u) => u.spec_encoding(),
            GenericDataUnit::UploadDeviceStatus(u) => u.spec_encoding(),
            GenericDataUnit::UploadDeviceOperation(u) => u.spec_encoding(),
            GenericDataUnit::UploadDeviceVersion(u) => u.spec_encoding(),
            GenericDataUnit::UploadDeviceConfig(u) => u.spec_encoding(),
            GenericDataUnit::UploadDeviceTime(u) => u.spec_encoding(),
            GenericDataUnit::ReadSystemStatus(u) => u.spec_encoding(),
            GenericDataUnit::ReadComponentStatus(u) => u.spec_encoding(),
            GenericDataUnit::ReadAnalogValue(u) => u.spec_encoding(),
            GenericDataUnit::ReadOperationInfo(u) => u.spec_encoding(),
            GenericDataUnit::ReadSoftwareVersion(u) => u.spec_encoding(),
            GenericDataUnit::ReadSystemConfig(u) => u.spec_encoding(),
            GenericDataUnit::ReadComponentConfig(u) => u.spec_encoding(),
            GenericDataUnit::ReadSystemTime(u) => u.spec_encoding(),
            GenericDataUnit::ReadDeviceStatus(u) => u.spec_encoding(),
            GenericDataUnit::ReadDeviceOperation(u) => u.spec_encoding(),
            GenericDataUnit::ReadDeviceVersion(u) => u.spec_encoding(),
            GenericDataUnit::ReadDeviceConfig(u) => u.spec_encoding(),
            GenericDataUnit::ReadDeviceTime(u) => u.spec_encoding(),
            GenericDataUnit::InitializeDevice(u) => u.spec_encoding(),
            GenericDataUnit::SyncDeviceClock(u) => u.spec_encoding(),
            GenericDataUnit::PatrolCommand(u) => u.spec_encoding(),
            GenericDataUnit::Extension { data, .. } => data@,
            GenericDataUnit::Raw { data, .. } => data@,
            GenericDataUnit::Unknown { raw_data, .. } => raw_data@,
        }
    }

    /// Whether the data unit passes its own consistency check.
    pub open spec fn spec_valid(self) -> bool {
        match self {
            GenericDataUnit::UploadSystemStatus(u) => u.object_count == 1,
            GenericDataUnit::UploadComponentStatus(u) => u.object_count == 1,
            GenericDataUnit::UploadAnalogValue(u) => u.object_count == 1,
            GenericDataUnit::UploadOperationInfo(u) => u.object_count == 1,
            GenericDataUnit::UploadSoftwareVersion(u) => u.object_count == 1,
            GenericDataUnit::UploadSystemConfig(u) => u.object_count == 1,
            GenericDataUnit::UploadComponentConfig(u) => u.object_count == 1,
            GenericDataUnit::UploadSystemTime(u) => u.object_count == 1,
            GenericDataUnit::UploadDeviceStatus(u) => u.object_count == 1,
            GenericDataUnit::UploadDeviceOperation(u) => u.object_count == 1,
            GenericDataUnit::UploadDeviceVersion(u) => u.object_count == 1,
            GenericDataUnit::UploadDeviceConfig(u) => u.object_count == 1,
            GenericDataUnit::UploadDeviceTime(u) => u.object_count == 1,
            GenericDataUnit::ReadSystemStatus(u) => 1 <= u.systems@.len() <= 102,
            GenericDataUnit::ReadComponentStatus(u) => 1 <= u.components@.len() <= 22,
            GenericDataUnit::ReadAnalogValue(u) => 1 <= u.components@.len() <= 63,
            GenericDataUnit::ReadOperationInfo(u) => u.record_count <= 102 && u.start_time.spec_is_valid(),
            GenericDataUnit::ReadSoftwareVersion(u) => true,
            GenericDataUnit::ReadSystemConfig(u) => 1 <= u.systems@.len() <= 3,
            GenericDataUnit::ReadComponentConfig(u) => 1 <= u.components@.len() <= 26,
            GenericDataUnit::ReadSystemTime(u) => true,
            GenericDataUnit::ReadDeviceStatus(u) => true,
            GenericDataUnit::ReadDeviceOperation(u) => 1 <= u.record_count <= 102,
            GenericDataUnit::ReadDeviceVersion(u) => true,
            GenericDataUnit::ReadDeviceConfig(u) => true,
            GenericDataUnit::ReadDeviceTime(u) => true,
            GenericDataUnit::InitializeDevice(u) => true,
            GenericDataUnit::SyncDeviceClock(u) => u.target_time.spec_is_valid(),
            GenericDataUnit::PatrolCommand(u) => true,
            _ => true,
        }
    }

    /// Decodes `data` as a data unit of type `data_type`; when the type has
    /// no standard decoder, or its decoder refuses the bytes, the raw bytes
    /// are kept.
    pub fn from_raw(data_type: DataUnitType, data: &[u8]) -> (r: ParseResult<Self>)
        ensures
            generic_parse_ok(data_type, data@, r),
    {
        match data_type {
            DataUnitType::UploadSystemStatus => match upstream::UploadSystemStatus::parse(data) {
                Ok(u) => Ok(GenericDataUnit::UploadSystemStatus(u)),
                Err(e) => {
                    proof {
                        assert(standard_parse_ok(data_type, data@, Err(e)));
                    }
                    Ok(GenericDataUnit::Raw { data_type, data: vstd::slice::slice_to_vec(data) })
                },
            },
            DataUnitType::UploadComponentStatus => match upstream::UploadComponentStatus::parse(data) {
                Ok(u) => Ok(GenericDataUnit::UploadComponentStatus(u)),
                Err(e) => {
                    proof {
                        assert(standard_parse_ok(data_type, data@, Err(e)));
                    }
                    Ok(GenericDataUnit::Raw { data_type, data: vstd::slice::slice_to_vec(data) })
                },
            },
            DataUnitType::UploadAnalogValue => match upstream::UploadAnalogValue::parse(data) {
                Ok(u) => Ok(GenericDataUnit::UploadAnalogValue(u)),
                Err(e) => {
                    proof {
                        assert(standard_parse_ok(data_type, data@, Err(e)));
                    }
                    Ok(GenericDataUnit::Raw { data_type, data: vstd::slice::slice_to_vec(data) })
                },
            },
            DataUnitType::UploadOperationInfo => match upstream::UploadOperationInfo::parse(data) {
                Ok(u) => Ok(GenericDataUnit::UploadOperationInfo(u)),
                Err(e) => {
                    proof {
                        assert(standard_parse_ok(data_type, data@, Err(e)));
                    }
                    Ok(GenericDataUnit::Raw { data_type, data: vstd::slice::slice_to_vec(data) })
                },
            },
            DataUnitType::UploadSoftwareVersion => match upstream::UploadSoftwareVersion::parse(data) {
                Ok(u) => Ok(GenericDataUnit::UploadSoftwareVersion(u)),
                Err(e) => {
                    proof {
                        assert(standard_parse_ok(data_type, data@, Err(e)));
                    }
                    Ok(GenericDataUnit::Raw { data_type, data: vstd::slice::slice_to_vec(data) })
                },
            },
            DataUnitType::UploadSystemConfig => match upstream::UploadSystemConfig::parse(data) {
                Ok(u) => Ok(GenericDataUnit::UploadSystemConfig(u)),
                Err(e) => {
                    proof {
                        assert(standard_parse_ok(data_type, data@, Err(e)));
                    }
                    Ok(GenericDataUnit::Raw { data_type, data: vstd::slice::slice_to_vec(data) })
                },
            },
            DataUnitType::UploadComponentConfig => match upstream::UploadComponentConfig::parse(data) {
                Ok(u) => Ok(GenericDataUnit::UploadComponentConfig(u)),
                Err(e) => {
                    proof {
                        assert(standard_parse_ok(data_type, data@, Err(e)));
                    }
                    Ok(GenericDataUnit::Raw { data_type, data: vstd::slice::slice_to_vec(data) })
                },
            },
            DataUnitType::UploadSystemTime => match upstream::UploadSystemTime::parse(data) {
                Ok(u) => Ok(GenericDataUnit::UploadSystemTime(u)),
                Err(e) => {
                    proof {
                        assert(standard_parse_ok(data_type, data@, Err(e)));
                    }
                    Ok(GenericDataUnit::Raw { data_type, data: vstd::slice::slice_to_vec(data) })
                },
            },
            DataUnitType::UploadDeviceStatus => match upstream::UploadDeviceStatus::parse(data) {
                Ok(u) => Ok(GenericDataUnit::UploadDeviceStatus(u)),
                Err(e) => {
                    proof {
                        assert(standard_parse_ok(data_type, data@, Err(e)));
                    }
                    Ok(GenericDataUnit::Raw { data_type, data: vstd::slice::slice_to_vec(data) })
                },
            },
            DataUnitType::UploadDeviceOperation => match upstream::UploadDeviceOperation::parse(data) {
                Ok(u) => Ok(GenericDataUnit::UploadDeviceOperation(u)),
                Err(e) => {
                    proof {
                        assert(standard_parse_ok(data_type, data@, Err(e)));
                    }
                    Ok(GenericDataUnit::Raw { data_type, data: vstd::slice::slice_to_vec(data) })
                },
            },
            DataUnitType::UploadDeviceVersion => match upstream::UploadDeviceVersion::parse(data) {
                Ok(u) => Ok(GenericDataUnit::UploadDeviceVersion(u)),
                Err(e) => {
                    proof {
                        assert(standard_parse_ok(data_type, data@, Err(e)));
                    }
                    Ok(GenericDataUnit::Raw { data_type, data: vstd::slice::slice_to_vec(data) })
                },
            },
            DataUnitType::UploadDeviceConfig => match upstream::UploadDeviceConfig::parse(data) {
                Ok(u) => Ok(GenericDataUnit::UploadDeviceConfig(u)),
                Err(e) => {
                    proof {
                        assert(standard_parse_ok(data_type, data@, Err(e)));
                    }
                    Ok(GenericDataUnit::Raw { data_type, data: vstd::slice::slice_to_vec(data) })
                },
            },
            DataUnitType::UploadDeviceTime => match upstream::UploadDeviceTime::parse(data) {
                Ok(u) => Ok(GenericDataUnit::UploadDeviceTime(u)),
                Err(e) => {
                    proof {
                        assert(standard_parse_ok(data_type, data@, Err(e)));
                    }
                    Ok(GenericDataUnit::Raw { data_type, data: vstd::slice::slice_to_vec(data) })
                },
            },
            DataUnitType::ReadSystemStatus => match downstream::ReadSystemStatus::parse(data) {
                Ok(u) => Ok(GenericDataUnit::ReadSystemStatus(u)),
                Err(e) => {
                    proof {
                        assert(standard_parse_ok(data_type, data@, Err(e)));
                    }
                    Ok(GenericDataUnit::Raw { data_type, data: vstd::slice::slice_to_vec(data) })
                },
            },
            DataUnitType::ReadComponentStatus => match downstream::ReadComponentStatus::parse(data) {
                Ok(u) => Ok(GenericDataUnit::ReadComponentStatus(u)),
                Err(e) => {
                    proof {
                        assert(standard_parse_ok(data_type, data@, Err(e)));
                    }
                    Ok(GenericDataUnit::Raw { data_type, data: vstd::slice::slice_to_vec(data) })
                },
            },
            DataUnitType::ReadAnalogValue => match downstream::ReadAnalogValue::parse(data) {
                Ok(u) => Ok(GenericDataUnit::ReadAnalogValue(u)),
                Err(e) => {
                    proof {
                        assert(standard_parse_ok(data_type, data@, Err(e)));
                    }
                    Ok(GenericDataUnit::Raw { data_type, data: vstd::slice::slice_to_vec(data) })
                },
            },
            DataUnitType::ReadOperationInfo => match downstream::ReadOperationInfo::parse(data) {
                Ok(u) => Ok(GenericDataUnit::ReadOperationInfo(u)),
                Err(e) => {
                    proof {
                        assert(standard_parse_ok(data_type, data@, Err(e)));
                    }
                    Ok(GenericDataUnit::Raw { data_type, data: vstd::slice::slice_to_vec(data) })
                },
            },
            DataUnitType::ReadSoftwareVersion => match downstream::ReadSoftwareVersion::parse(data) {
                Ok(u) => Ok(GenericDataUnit::ReadSoftwareVersion(u)),
                Err(e) => {
                    proof {
                        assert(standard_parse_ok(data_type, data@, Err(e)));
                    }
                    Ok(GenericDataUnit::Raw { data_type, data: vstd::slice::slice_to_vec(data) })
                },
            },
            DataUnitType::ReadSystemConfig => match downstream::ReadSystemConfig::parse(data) {
                Ok(u) => Ok(GenericDataUnit::ReadSystemConfig(u)),
                Err(e) => {
                    proof {
                        assert(standard_parse_ok(data_type, data@, Err(e)));
                    }
                    Ok(GenericDataUnit::Raw { data_type, data: vstd::slice::slice_to_vec(data) })
                },
            },
            DataUnitType::ReadComponentConfig => match downstream::ReadComponentConfig::parse(data) {
                Ok(u) => Ok(GenericDataUnit::ReadComponentConfig(u)),
                Err(e) => {
                    proof {
                        assert(standard_parse_ok(data_type, data@, Err(e)));
                    }
                    Ok(GenericDataUnit::Raw { data_type, data: vstd::slice::slice_to_vec(data) })
                },
            },
            DataUnitType::ReadSystemTime => match downstream::ReadSystemTime::parse(data) {
                Ok(u) => Ok(GenericDataUnit::ReadSystemTime(u)),
                Err(e) => {
                    proof {
                        assert(standard_parse_ok(data_type, data@, Err(e)));
                    }
                    Ok(GenericDataUnit::Raw { data_type, data: vstd::slice::slice_to_vec(data) })
                },
            },
            DataUnitType::ReadDeviceStatus => match downstream::ReadDeviceStatus::parse(data) {
                Ok(u) => Ok(GenericDataUnit::ReadDeviceStatus(u)),
                Err(e) => {
                    proof {
                        assert(standard_parse_ok(data_type, data@, Err(e)));
                    }
                    Ok(GenericDataUnit::Raw { data_type, data: vstd::slice::slice_to_vec(data) })
                },
            },
            DataUnitType::ReadDeviceOperation => match downstream::ReadDeviceOperation::parse(data) {
                Ok(u) => Ok(GenericDataUnit::ReadDeviceOperation(u)),
                Err(e) => {
                    proof {
                        assert(standard_parse_ok(data_type, data@, Err(e)));
                    }
                    Ok(GenericDataUnit::Raw { data_type, data: vstd::slice::slice_to_vec(data) })
                },
            },
            DataUnitType::ReadDeviceVersion => match downstream::ReadDeviceVersion::parse(data) {
                Ok(u) => Ok(GenericDataUnit::ReadDeviceVersion(u)),
                Err(e) => {
                    proof {
                        assert(standard_parse_ok(data_type, data@, Err(e)));
                    }
                    Ok(GenericDataUnit::Raw { data_type, data: vstd::slice::slice_to_vec(data) })
                },
            },
            DataUnitType::ReadDeviceConfig => match downstream::ReadDeviceConfig::parse(data) {
                Ok(u) => Ok(GenericDataUnit::ReadDeviceConfig(u)),
                Err(e) => {
                    proof {
                        assert(standard_parse_ok(data_type, data@, Err(e)));
                    }
                    Ok(GenericDataUnit::Raw { data_type, data: vstd::slice::slice_to_vec(data) })
                },
            },
            DataUnitType::ReadDeviceTime => match downstream::ReadDeviceTime::parse(data) {
                Ok(u) => Ok(GenericDataUnit::ReadDeviceTime(u)),
                Err(e) => {
                    proof {
                        assert(standard_parse_ok(data_type, data@, Err(e)));
                    }
                    Ok(GenericDataUnit::Raw { data_type, data: vstd::slice::slice_to_vec(data) })
                },
            },
            DataUnitType::InitializeDevice => match downstream::InitializeDevice::parse(data) {
                Ok(u) => Ok(GenericDataUnit::InitializeDevice(u)),
                Err(e) => {
                    proof {
                        assert(standard_parse_ok(data_type, data@, Err(e)));
                    }
                    Ok(GenericDataUnit::Raw { data_type, data: vstd::slice::slice_to_vec(data) })
                },
            },
            DataUnitType::SyncDeviceClock => match downstream::SyncDeviceClock::parse(data) {
                Ok(u) => Ok(GenericDataUnit::SyncDeviceClock(u)),
                Err(e) => {
                    proof {
                        assert(standard_parse_ok(data_type, data@, Err(e)));
                    }
                    Ok(GenericDataUnit::Raw { data_type, data: vstd::slice::slice_to_vec(data) })
                },
            },
            DataUnitType::PatrolCommand => match downstream::PatrolCommand::parse(data) {
                Ok(u) => Ok(GenericDataUnit::PatrolCommand(u)),
                Err(e) => {
                    proof {
                        assert(standard_parse_ok(data_type, data@, Err(e)));
                    }
                    Ok(GenericDataUnit::Raw { data_type, data: vstd::slice::slice_to_vec(data) })
                },
            },
            _ => Ok(GenericDataUnit::Raw { data_type, data: vstd::slice::slice_to_vec(data) }),
        }
    }

    /// Decodes a data unit from its type and content (same as `from_raw`).
    pub fn parse_from_type_and_content(data_type: DataUnitType, content: &[u8]) -> (r: ParseResult<Self>)
        ensures
            generic_parse_ok(data_type, content@, r),
    {
        Self::from_raw(data_type, content)
    }

    /// The data unit's type.
    pub fn data_unit_type(&self) -> (r: DataUnitType)
        ensures
            r == self.spec_type(),
    {
        match self {
            GenericDataUnit::UploadSystemStatus(u) => u.data_unit_type(),
            GenericDataUnit::UploadComponentStatus(u) => u.data_unit_type(),
            GenericDataUnit::UploadAnalogValue(u) => u.data_unit_type(),
            GenericDataUnit::UploadOperationInfo(u) => u.data_unit_type(),
            GenericDataUnit::UploadSoftwareVersion(u) => u.data_unit_type(),
            GenericDataUnit::UploadSystemConfig(u) => u.data_unit_type(),
            GenericDataUnit::UploadComponentConfig(u) => u.data_unit_type(),
            GenericDataUnit::UploadSystemTime(u) => u.data_unit_type(),
            GenericDataUnit::UploadDeviceStatus(u) => u.data_unit_type(),
            GenericDataUnit::UploadDeviceOperation(u) => u.data_unit_type(),
            GenericDataUnit::UploadDeviceVersion(u) => u.data_unit_type(),
            GenericDataUnit::UploadDeviceConfig(u) => u.data_unit_type(),
            GenericDataUnit::UploadDeviceTime(u) => u.data_unit_type(),
            GenericDataUnit::ReadSystemStatus(u) => u.data_unit_type(),
            GenericDataUnit::ReadComponentStatus(u) => u.data_unit_type(),
            GenericDataUnit::ReadAnalogValue(u) => u.data_unit_type(),
            GenericDataUnit::ReadOperationInfo(u) => u.data_unit_type(),
            GenericDataUnit::ReadSoftwareVersion(u) => u.data_unit_type(),
            GenericDataUnit::ReadSystemConfig(u) => u.data_unit_type(),
            GenericDataUnit::ReadComponentConfig(u) => u.data_unit_type(),
            GenericDataUnit::ReadSystemTime(u) => u.data_unit_type(),
            GenericDataUnit::ReadDeviceStatus(u) => u.data_unit_type(),
            GenericDataUnit::ReadDeviceOperation(u) => u.data_unit_type(),
            GenericDataUnit::ReadDeviceVersion(u) => u.data_unit_type(),
            GenericDataUnit::ReadDeviceConfig(u) => u.data_unit_type(),
            GenericDataUnit::ReadDeviceTime(u) => u.data_unit_type(),
            GenericDataUnit::InitializeDevice(u) => u.data_unit_type(),
            GenericDataUnit::SyncDeviceClock(u) => u.data_unit_type(),
            GenericDataUnit::PatrolCommand(u) => u.data_unit_type(),
            GenericDataUnit::Extension { type_code, .. } => DataUnitType::UserDefined(*type_code),
            GenericDataUnit::Raw { data_type, .. } => *data_type,
            GenericDataUnit::Unknown { data_unit_type, .. } => *data_unit_type,
        }
    }

    /// The data unit's bytes.
    pub fn encode(&self) -> (r: EncodeResult<Vec<u8>>)
        ensures
            r matches Ok(v) && v@ == self.spec_encoding(),
    {
        match self {
            GenericDataUnit::UploadSystemStatus(u) => u.encode(),
            GenericDataUnit::UploadComponentStatus(u) => u.encode(),
            GenericDataUnit::UploadAnalogValue(u) => u.encode(),
            GenericDataUnit::UploadOperationInfo(u) => u.encode(),
            GenericDataUnit::UploadSoftwareVersion(u) => u.encode(),
            GenericDataUnit::UploadSystemConfig(u) => u.encode(),
            GenericDataUnit::UploadComponentConfig(u) => u.encode(),
            GenericDataUnit::UploadSystemTime(u) => u.encode(),
            GenericDataUnit::UploadDeviceStatus(u) => u.encode(),
            GenericDataUnit::UploadDeviceOperation(u) => u.encode(),
            GenericDataUnit::UploadDeviceVersion(u) => u.encode(),
            GenericDataUnit::UploadDeviceConfig(u) => u.encode(),
            GenericDataUnit::UploadDeviceTime(u) => u.encode(),
            GenericDataUnit::ReadSystemStatus(u) => u.encode(),
            GenericDataUnit::ReadComponentStatus(u) => u.encode(),
            GenericDataUnit::ReadAnalogValue(u) => u.encode(),
            GenericDataUnit::ReadOperationInfo(u) => u.encode(),
            GenericDataUnit::ReadSoftwareVersion(u) => u.encode(),
            GenericDataUnit::ReadSystemConfig(u) => u.encode(),
            GenericDataUnit::ReadComponentConfig(u) => u.encode(),
            GenericDataUnit::ReadSystemTime(u) => u.encode(),
            GenericDataUnit::ReadDeviceStatus(u) => u.encode(),
            GenericDataUnit::ReadDeviceOperation(u) => u.encode(),
            GenericDataUnit::ReadDeviceVersion(u) => u.encode(),
            GenericDataUnit::ReadDeviceConfig(u) => u.encode(),
            GenericDataUnit::ReadDeviceTime(u) => u.encode(),
            GenericDataUnit::InitializeDevice(u) => u.encode(),
            GenericDataUnit::SyncDeviceClock(u) => u.encode(),
            GenericDataUnit::PatrolCommand(u) => u.encode(),
            GenericDataUnit::Extension { data, .. } => Ok(data.clone()),
            GenericDataUnit::Raw { data, .. } => Ok(data.clone()),
            GenericDataUnit::Unknown { raw_data, .. } => Ok(vstd::slice::slice_to_vec(raw_data.as_slice())),
        }
    }

    /// The data unit's own consistency check; extension, raw and unknown
    /// data units always pass.
    pub fn validate(&self) -> (r: ParseResult<()>)
        ensures
            r is Ok <==> self.spec_valid(),
    {
        match self {
            GenericDataUnit::UploadSystemStatus(u) => u.validate(),
            GenericDataUnit::UploadComponentStatus(u) => u.validate(),
            GenericDataUnit::UploadAnalogValue(u) => u.validate(),
            GenericDataUnit::UploadOperationInfo(u) => u.validate(),
            GenericDataUnit::UploadSoftwareVersion(u) => u.validate(),
            GenericDataUnit::UploadSystemConfig(u) => u.validate(),
            GenericDataUnit::UploadComponentConfig(u) => u.validate(),
            GenericDataUnit::UploadSystemTime(u) => u.validate(),
            GenericDataUnit::UploadDeviceStatus(u) => u.validate(),
            GenericDataUnit::UploadDeviceOperation(u) => u.validate(),
            GenericDataUnit::UploadDeviceVersion(u) => u.validate(),
            GenericDataUnit::UploadDeviceConfig(u) => u.validate(),
            GenericDataUnit::UploadDeviceTime(u) => u.validate(),
            GenericDataUnit::ReadSystemStatus(u) => u.validate(),
            GenericDataUnit::ReadComponentStatus(u) => u.validate(),
            GenericDataUnit::ReadAnalogValue(u) => u.validate(),
            GenericDataUnit::ReadOperationInfo(u) => u.validate(),
            GenericDataUnit::ReadSoftwareVersion(u) => u.validate(),
            GenericDataUnit::ReadSystemConfig(u) => u.validate(),
            GenericDataUnit::ReadComponentConfig(u) => u.validate(),
            GenericDataUnit::ReadSystemTime(u) => u.validate(),
            GenericDataUnit::ReadDeviceStatus(u) => u.validate(),
            GenericDataUnit::ReadDeviceOperation(u) => u.validate(),
            GenericDataUnit::ReadDeviceVersion(u) => u.validate(),
            GenericDataUnit::ReadDeviceConfig(u) => u.validate(),
            GenericDataUnit::ReadDeviceTime(u) => u.validate(),
            GenericDataUnit::InitializeDevice(u) => u.validate(),
            GenericDataUnit::SyncDeviceClock(u) => u.validate(),
            GenericDataUnit::PatrolCommand(u) => u.validate(),
            GenericDataUnit::Extension { .. } => Ok(()),
            GenericDataUnit::Raw { .. } => Ok(()),
            GenericDataUnit::Unknown { .. } => Ok(()),
        }
    }

    /// Whether the type code is an upstream code (1-28).
    pub fn is_upstream(&self) -> (r: bool)
        ensures
            r == (1 <= self.spec_type().spec_to_u8() <= 28),
    {
        DataUnitIdentifier::new(self.data_unit_type()).is_upstream()
    }

    /// Whether the type code is a downstream code (61-91).
    pub fn is_downstream(&self) -> (r: bool)
        ensures
            r == (61 <= self.spec_type().spec_to_u8() <= 91),
    {
        DataUnitIdentifier::new(self.data_unit_type()).is_downstream()
    }

    /// Whether the data unit is raw bytes of a user defined type (128-254).
    pub fn is_custom(&self) -> (r: bool)
        ensures
            r == (self matches GenericDataUnit::Raw { data_type, .. } && 128 <= data_type.spec_to_u8()
                <= 254),
    {
        match self {
            GenericDataUnit::Raw { data_type, .. } => {
                let v = data_type.to_u8();
                128 <= v && v <= 254
            },
            _ => false,
        }
    }

    /// The description of the data unit's type.
    pub fn description(&self) -> (r: String)
        ensures
            r@ == self.spec_type().spec_description(),
    {
        DataUnitIdentifier::new(self.data_unit_type()).description()
    }

    /// Display text: the description, then the type code in brackets.
    pub fn to_string(&self) -> (r: String)
        ensures
            r@ == self.spec_type().spec_description() + " ("@ + decimal_text(
                self.spec_type().spec_to_u8() as nat,
            ) + ")"@,
    {
        let mut s = self.description();
        s.append(" (");
        push_decimal(&mut s, self.data_unit_type().to_u8() as u64);
        s.append(")");
        s
    }
}

} // verus!
