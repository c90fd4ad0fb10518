//! Upstream data units (types 1-28): one information object, or a time or
//! state value, preceded by the object count (always 1) and followed by the
//! unit's time label.
use crate::data_unit::DataUnit;
use crate::error::{EncodeResult, ParseError, ParseResult};
use crate::frame::timestamp::{
    bytes_are_valid_timestamp, timestamp_error_of, timestamp_of_bytes, timestamp_parse_ok,
    Timestamp,
};
use crate::info_object::analog_value::{analog_value_bytes_ok, analog_value_parse_ok};
use crate::info_object::component_status::{component_status_bytes_ok, component_status_parse_ok};
use crate::info_object::config::{
    component_config_bytes_ok, component_config_parse_ok, device_config_bytes_ok,
    device_config_parse_ok, fire_system_config_bytes_ok, fire_system_config_parse_ok,
};
use crate::info_object::operation::{
    device_operation_bytes_ok, device_operation_parse_ok, fire_system_operation_bytes_ok,
    fire_system_operation_parse_ok,
};
use crate::info_object::system_status::{system_status_bytes_ok, system_status_parse_ok};
use crate::info_object::version::{
    device_version_bytes_ok, device_version_parse_ok, fire_system_version_bytes_ok,
    fire_system_version_parse_ok,
};
use crate::info_object::{
    AnalogValue, ComponentConfig, ComponentStatus, DeviceConfig, DeviceOperation, DeviceVersion,
    FireSystemConfig, FireSystemOperation, FireSystemVersion, InfoObject, SystemStatus,
};
use crate::protocol::DataUnitType;
use crate::text::{decimal_string, decimal_text};
use crate::wire::{append_bytes, le16, le16_bytes, u16_from_le, u16_to_le};
use vstd::prelude::*;

verus! {

/// The error for an object count other than 1: `InvalidValue` naming
/// `object_count`, with the count in decimal.
pub open spec fn object_count_error_of(count: u8, e: ParseError) -> bool {
    e matches ParseError::InvalidValue { field, value, .. } && field@ == "object_count"@ && value@
        == decimal_text(count as nat)
}

/// The object count error for `count`.
pub fn object_count_error(count: u8, reason: &str) -> (e: ParseError)
    ensures
        object_count_error_of(count, e),
{
    ParseError::InvalidValue {
        field: "object_count".to_owned(),
        value: decimal_string(count as u64),
        reason: reason.to_owned(),
    }
}

/// Reads a time label or passes its error on.
fn read_time(data: &[u8]) -> (r: ParseResult<Timestamp>)
    ensures
        timestamp_parse_ok(data@, r),
{
    Timestamp::parse(data)
}

/// Upload of a building fire facility system state.
#[derive(Debug, Clone, Copy, PartialEq, Eq, Structural)]
pub struct UploadSystemStatus {
    /// number of information objects (1)
    pub object_count: u8,
    /// the carried value
    pub system_status: SystemStatus,
    /// time label of the data unit
    pub timestamp: Timestamp,
}

/// The outcome of reading a building fire facility system state data unit from `b`.
pub open spec fn upload_system_status_parse_ok(b: Seq<u8>, r: ParseResult<UploadSystemStatus>) -> bool {
    let info = b.subrange(1, 11);
    let time = b.subrange(11, 17);
    let head_ok = b.len() >= 17 && b[0] == 1;
    &&& r is Ok <==> (head_ok && system_status_bytes_ok(info) && bytes_are_valid_timestamp(time))
    &&& r matches Ok(u) ==> u.object_count == 1 && system_status_parse_ok(info, Ok(u.system_status)) && u.timestamp
        == timestamp_of_bytes(time)
    &&& b.len() < 17 ==> (r matches Err(ParseError::InsufficientData { expected, actual })
        && expected == 17 && actual == b.len())
    &&& b.len() >= 17 && b[0] != 1 ==> (r matches Err(e) && object_count_error_of(b[0], e))
    &&& head_ok && !system_status_bytes_ok(info) ==> (r matches Err(e) && system_status_parse_ok(info, Err(e)))
    &&& head_ok && system_status_bytes_ok(info) && !bytes_are_valid_timestamp(time) ==> (r matches Err(e)
        && timestamp_error_of(time, e))
}

impl UploadSystemStatus {
    /// Creates the data unit with object count 1.
    pub fn new(system_status: SystemStatus, timestamp: Timestamp) -> (r: Self)
        ensures
            r == (UploadSystemStatus { object_count: 1, system_status, timestamp }),
    {
        Self { object_count: 1, system_status, timestamp }
    }

    /// The carried value.
    pub fn system_status(&self) -> (r: &SystemStatus)
        ensures
            *r == self.system_status,
    {
        &self.system_status
    }

    /// The time label of the data unit.
    pub fn timestamp(&self) -> (r: &Timestamp)
        ensures
            *r == self.timestamp,
    {
        &self.timestamp
    }
}

impl DataUnit for UploadSystemStatus {
    open spec fn spec_encoding(&self) -> Seq<u8> {
        seq![self.object_count] + self.system_status.spec_bytes() + self.timestamp.spec_bytes()
    }

    open spec fn spec_encodable(&self) -> bool {
        true
    }

    fn data_unit_type(&self) -> (r: DataUnitType)
        ensures
            r == DataUnitType::UploadSystemStatus,
    {
        DataUnitType::UploadSystemStatus
    }

    fn encode(&self) -> (r: EncodeResult<Vec<u8>>) {
        let mut buf: Vec<u8> = Vec::new();
        buf.push(self.object_count);
        let info = match self.system_status.encode() {
            Ok(v) => v,
            Err(e) => {
                return Err(e);
            },
        };
        append_bytes(&mut buf, info.as_slice());
        let ts = self.timestamp.to_bytes();
        append_bytes(&mut buf, &ts);
        proof {
            assert(buf@ =~= self.spec_encoding());
        }
        Ok(buf)
    }

    fn parse(data: &[u8]) -> (r: ParseResult<Self>)
        ensures
            upload_system_status_parse_ok(data@, r),
    {
        if data.len() < 17 {
            return Err(ParseError::InsufficientData { expected: 17, actual: data.len() });
        }
        let object_count = data[0];
        if object_count != 1 {
            return Err(object_count_error(object_count, "System status should have exactly 1 object"));
        }
        let system_status = match SystemStatus::parse(&data[1..11]) {
            Ok(v) => v,
            Err(e) => {
                return Err(e);
            },
        };
        let timestamp = match read_time(&data[11..17]) {
            Ok(t) => t,
            Err(e) => {
                return Err(e);
            },
        };
        Ok(Self { object_count, system_status, timestamp })
    }

    /// `Ok` exactly when the object count is 1.
    fn validate(&self) -> (r: ParseResult<()>)
        ensures
            r is Ok <==> self.object_count == 1,
            r matches Err(e) ==> object_count_error_of(self.object_count, e),
    {
        if self.object_count != 1 {
            return Err(object_count_error(self.object_count, "System status should have exactly 1 object"));
        }
        Ok(())
    }
}

/// Upload of a component state.
#[derive(Debug, Clone, Copy, PartialEq, Eq)]
pub struct UploadComponentStatus {
    /// number of information objects (1)
    pub object_count: u8,
    /// the carried value
    pub component_status: ComponentStatus,
    /// time label of the data unit
    pub timestamp: Timestamp,
}

/// The outcome of reading a component state data unit from `b`.
pub open spec fn upload_component_status_parse_ok(b: Seq<u8>, r: ParseResult<UploadComponentStatus>) -> bool {
    let info = b.subrange(1, 47);
    let time = b.subrange(47, 53);
    let head_ok = b.len() >= 53 && b[0] == 1;
    &&& r is Ok <==> (head_ok && component_status_bytes_ok(info) && bytes_are_valid_timestamp(time))
    &&& r matches Ok(u) ==> u.object_count == 1 && component_status_parse_ok(info, Ok(u.component_status)) && u.timestamp
        == timestamp_of_bytes(time)
    &&& b.len() < 53 ==> (r matches Err(ParseError::InsufficientData { expected, actual })
        && expected == 53 && actual == b.len())
    &&& b.len() >= 53 && b[0] != 1 ==> (r matches Err(e) && object_count_error_of(b[0], e))
    &&& head_ok && !component_status_bytes_ok(info) ==> (r matches Err(e) && component_status_parse_ok(info, Err(e)))
    &&& head_ok && component_status_bytes_ok(info) && !bytes_are_valid_timestamp(time) ==> (r matches Err(e)
        && timestamp_error_of(time, e))
}

impl UploadComponentStatus {
    /// Creates the data unit with object count 1.
    pub fn new(component_status: ComponentStatus, timestamp: Timestamp) -> (r: Self)
        ensures
            r == (UploadComponentStatus { object_count: 1, component_status, timestamp }),
    {
        Self { object_count: 1, component_status, timestamp }
    }

    /// The carried value.
    pub fn component_status(&self) -> (r: &ComponentStatus)
        ensures
            *r == self.component_status,
    {
        &self.component_status
    }

    /// The time label of the data unit.
    pub fn timestamp(&self) -> (r: &Timestamp)
        ensures
            *r == self.timestamp,
    {
        &self.timestamp
    }
}

impl DataUnit for UploadComponentStatus {
    open spec fn spec_encoding(&self) -> Seq<u8> {
        seq![self.object_count] + self.component_status.spec_bytes() + self.timestamp.spec_bytes()
    }

    open spec fn spec_encodable(&self) -> bool {
        true
    }

    fn data_unit_type(&self) -> (r: DataUnitType)
        ensures
            r == DataUnitType::UploadComponentStatus,
    {
        DataUnitType::UploadComponentStatus
    }

    fn encode(&self) -> (r: EncodeResult<Vec<u8>>) {
        let mut buf: Vec<u8> = Vec::new();
        buf.push(self.object_count);
        let info = match self.component_status.encode() {
            Ok(v) => v,
            Err(e) => {
                return Err(e);
            },
        };
        append_bytes(&mut buf, info.as_slice());
        let ts = self.timestamp.to_bytes();
        append_bytes(&mut buf, &ts);
        proof {
            assert(buf@ =~= self.spec_encoding());
        }
        Ok(buf)
    }

    fn parse(data: &[u8]) -> (r: ParseResult<Self>)
        ensures
            upload_component_status_parse_ok(data@, r),
    {
        if data.len() < 53 {
            return Err(ParseError::InsufficientData { expected: 53, actual: data.len() });
        }
        let object_count = data[0];
        if object_count != 1 {
            return Err(object_count_error(object_count, "Component status should have exactly 1 object"));
        }
        let component_status = match ComponentStatus::parse(&data[1..47]) {
            Ok(v) => v,
            Err(e) => {
                return Err(e);
            },
        };
        let timestamp = match read_time(&data[47..53]) {
            Ok(t) => t,
            Err(e) => {
                return Err(e);
            },
        };
        Ok(Self { object_count, component_status, timestamp })
    }

    /// `Ok` exactly when the object count is 1.
    fn validate(&self) -> (r: ParseResult<()>)
        ensures
            r is Ok <==> self.object_count == 1,
            r matches Err(e) ==> object_count_error_of(self.object_count, e),
    {
        if self.object_count != 1 {
            return Err(object_count_error(self.object_count, "Component status should have exactly 1 object"));
        }
        Ok(())
    }
}

/// Upload of a component analog value.
#[derive(Debug, Clone, Copy, PartialEq, Eq, Structural)]
pub struct UploadAnalogValue {
    /// number of information objects (1)
    pub object_count: u8,
    /// the carried value
    pub analog_value: AnalogValue,
    /// time label of the data unit
    pub timestamp: Timestamp,
}

/// The outcome of reading a component analog value data unit from `b`.
pub open spec fn upload_analog_value_parse_ok(b: Seq<u8>, r: ParseResult<UploadAnalogValue>) -> bool {
    let info = b.subrange(1, 17);
    let time = b.subrange(17, 23);
    let head_ok = b.len() >= 23 && b[0] == 1;
    &&& r is Ok <==> (head_ok && analog_value_bytes_ok(info) && bytes_are_valid_timestamp(time))
    &&& r matches Ok(u) ==> u.object_count == 1 && analog_value_parse_ok(info, Ok(u.analog_value)) && u.timestamp
        == timestamp_of_bytes(time)
    &&& b.len() < 23 ==> (r matches Err(ParseError::InsufficientData { expected, actual })
        && expected == 23 && actual == b.len())
    &&& b.len() >= 23 && b[0] != 1 ==> (r matches Err(e) && object_count_error_of(b[0], e))
    &&& head_ok && !analog_value_bytes_ok(info) ==> (r matches Err(e) && analog_value_parse_ok(info, Err(e)))
    &&& head_ok && analog_value_bytes_ok(info) && !bytes_are_valid_timestamp(time) ==> (r matches Err(e)
        && timestamp_error_of(time, e))
}

impl UploadAnalogValue {
    /// Creates the data unit with object count 1.
    pub fn new(analog_value: AnalogValue, timestamp: Timestamp) -> (r: Self)
        ensures
            r == (UploadAnalogValue { object_count: 1, analog_value, timestamp }),
    {
        Self { object_count: 1, analog_value, timestamp }
    }

    /// The carried value.
    pub fn analog_value(&self) -> (r: &AnalogValue)
        ensures
            *r == self.analog_value,
    {
        &self.analog_value
    }

    /// The time label of the data unit.
    pub fn timestamp(&self) -> (r: &Timestamp)
        ensures
            *r == self.timestamp,
    {
        &self.timestamp
    }
}

impl DataUnit for UploadAnalogValue {
    open spec fn spec_encoding(&self) -> Seq<u8> {
        seq![self.object_count] + self.analog_value.spec_bytes() + self.timestamp.spec_bytes()
    }

    open spec fn spec_encodable(&self) -> bool {
        true
    }

    fn data_unit_type(&self) -> (r: DataUnitType)
        ensures
            r == DataUnitType::UploadAnalogValue,
    {
        DataUnitType::UploadAnalogValue
    }

    fn encode(&self) -> (r: EncodeResult<Vec<u8>>) {
        let mut buf: Vec<u8> = Vec::new();
        buf.push(self.object_count);
        let info = match self.analog_value.encode() {
            Ok(v) => v,
            Err(e) => {
                return Err(e);
            },
        };
        append_bytes(&mut buf, info.as_slice());
        let ts = self.timestamp.to_bytes();
        append_bytes(&mut buf, &ts);
        proof {
            assert(buf@ =~= self.spec_encoding());
        }
        Ok(buf)
    }

    fn parse(data: &[u8]) -> (r: ParseResult<Self>)
        ensures
            upload_analog_value_parse_ok(data@, r),
    {
        if data.len() < 23 {
            return Err(ParseError::InsufficientData { expected: 23, actual: data.len() });
        }
        let object_count = data[0];
        if object_count != 1 {
            return Err(object_count_error(object_count, "Analog value should have exactly 1 object"));
        }
        let analog_value = match AnalogValue::parse(&data[1..17]) {
            Ok(v) => v,
            Err(e) => {
                return Err(e);
            },
        };
        let timestamp = match read_time(&data[17..23]) {
            Ok(t) => t,
            Err(e) => {
                return Err(e);
            },
        };
        Ok(Self { object_count, analog_value, timestamp })
    }

    /// `Ok` exactly when the object count is 1.
    fn validate(&self) -> (r: ParseResult<()>)
        ensures
            r is Ok <==> self.object_count == 1,
            r matches Err(e) ==> object_count_error_of(self.object_count, e),
    {
        if self.object_count != 1 {
            return Err(object_count_error(self.object_count, "Analog value should have exactly 1 object"));
        }
        Ok(())
    }
}

/// Upload of a system operation record.
#[derive(Debug, Clone, Copy, PartialEq, Eq, Structural)]
pub struct UploadOperationInfo {
    /// number of information objects (1)
    pub object_count: u8,
    /// the carried value
    pub operation_info: FireSystemOperation,
    /// time label of the data unit
    pub timestamp: Timestamp,
}

/// The outcome of reading a system operation record data unit from `b`.
pub open spec fn upload_operation_info_parse_ok(b: Seq<u8>, r: ParseResult<UploadOperationInfo>) -> bool {
    let info = b.subrange(1, 11);
    let time = b.subrange(11, 17);
    let head_ok = b.len() >= 17 && b[0] == 1;
    &&& r is Ok <==> (head_ok && fire_system_operation_bytes_ok(info) && bytes_are_valid_timestamp(time))
    &&& r matches Ok(u) ==> u.object_count == 1 && fire_system_operation_parse_ok(info, Ok(u.operation_info)) && u.timestamp
        == timestamp_of_bytes(time)
    &&& b.len() < 17 ==> (r matches Err(ParseError::InsufficientData { expected, actual })
        && expected == 17 && actual == b.len())
    &&& b.len() >= 17 && b[0] != 1 ==> (r matches Err(e) && object_count_error_of(b[0], e))
    &&& head_ok && !fire_system_operation_bytes_ok(info) ==> (r matches Err(e) && fire_system_operation_parse_ok(info, Err(e)))
    &&& head_ok && fire_system_operation_bytes_ok(info) && !bytes_are_valid_timestamp(time) ==> (r matches Err(e)
        && timestamp_error_of(time, e))
}

impl UploadOperationInfo {
    /// Creates the data unit with object count 1.
    pub fn new(operation_info: FireSystemOperation, timestamp: Timestamp) -> (r: Self)
        ensures
            r == (UploadOperationInfo { object_count: 1, operation_info, timestamp }),
    {
        Self { object_count: 1, operation_info, timestamp }
    }

    /// The carried value.
    pub fn operation_info(&self) -> (r: &FireSystemOperation)
        ensures
            *r == self.operation_info,
    {
        &self.operation_info
    }

    /// The time label of the data unit.
    pub fn timestamp(&self) -> (r: &Timestamp)
        ensures
            *r == self.timestamp,
    {
        &self.timestamp
    }
}

impl DataUnit for UploadOperationInfo {
    open spec fn spec_encoding(&self) -> Seq<u8> {
        seq![self.object_count] + self.operation_info.spec_bytes() + self.timestamp.spec_bytes()
    }

    open spec fn spec_encodable(&self) -> bool {
        true
    }

    fn data_unit_type(&self) -> (r: DataUnitType)
        ensures
            r == DataUnitType::UploadOperationInfo,
    {
        DataUnitType::UploadOperationInfo
    }

    fn encode(&self) -> (r: EncodeResult<Vec<u8>>) {
        let mut buf: Vec<u8> = Vec::new();
        buf.push(self.object_count);
        let info = match self.operation_info.encode() {
            Ok(v) => v,
            Err(e) => {
                return Err(e);
            },
        };
        append_bytes(&mut buf, info.as_slice());
        let ts = self.timestamp.to_bytes();
        append_bytes(&mut buf, &ts);
        proof {
            assert(buf@ =~= self.spec_encoding());
        }
        Ok(buf)
    }

    fn parse(data: &[u8]) -> (r: ParseResult<Self>)
        ensures
            upload_operation_info_parse_ok(data@, r),
    {
        if data.len() < 17 {
            return Err(ParseError::InsufficientData { expected: 17, actual: data.len() });
        }
        let object_count = data[0];
        if object_count != 1 {
            return Err(object_count_error(object_count, "Operation info should have exactly 1 object"));
        }
        let operation_info = match FireSystemOperation::parse(&data[1..11]) {
            Ok(v) => v,
            Err(e) => {
                return Err(e);
            },
        };
        let timestamp = match read_time(&data[11..17]) {
            Ok(t) => t,
            Err(e) => {
                return Err(e);
            },
        };
        Ok(Self { object_count, operation_info, timestamp })
    }

    /// `Ok` exactly when the object count is 1.
    fn validate(&self) -> (r: ParseResult<()>)
        ensures
            r is Ok <==> self.object_count == 1,
            r matches Err(e) ==> object_count_error_of(self.object_count, e),
    {
        if self.object_count != 1 {
            return Err(object_count_error(self.object_count, "Operation info should have exactly 1 object"));
        }
        Ok(())
    }
}

/// Upload of a system software version.
#[derive(Debug, Clone, Copy, PartialEq, Eq, Structural)]
pub struct UploadSoftwareVersion {
    /// number of information objects (1)
    pub object_count: u8,
    /// the carried value
    pub version_info: FireSystemVersion,
    /// time label of the data unit
    pub timestamp: Timestamp,
}

/// The outcome of reading a system software version data unit from `b`.
pub open spec fn upload_software_version_parse_ok(b: Seq<u8>, r: ParseResult<UploadSoftwareVersion>) -> bool {
    let info = b.subrange(1, 11);
    let time = b.subrange(11, 17);
    let head_ok = b.len() >= 17 && b[0] == 1;
    &&& r is Ok <==> (head_ok && fire_system_version_bytes_ok(info) && bytes_are_valid_timestamp(time))
    &&& r matches Ok(u) ==> u.object_count == 1 && fire_system_version_parse_ok(info, Ok(u.version_info)) && u.timestamp
        == timestamp_of_bytes(time)
    &&& b.len() < 17 ==> (r matches Err(ParseError::InsufficientData { expected, actual })
        && expected == 17 && actual == b.len())
    &&& b.len() >= 17 && b[0] != 1 ==> (r matches Err(e) && object_count_error_of(b[0], e))
    &&& head_ok && !fire_system_version_bytes_ok(info) ==> (r matches Err(e) && fire_system_version_parse_ok(info, Err(e)))
    &&& head_ok && fire_system_version_bytes_ok(info) && !bytes_are_valid_timestamp(time) ==> (r matches Err(e)
        && timestamp_error_of(time, e))
}

impl UploadSoftwareVersion {
    /// Creates the data unit with object count 1.
    pub fn new(version_info: FireSystemVersion, timestamp: Timestamp) -> (r: Self)
        ensures
            r == (UploadSoftwareVersion { object_count: 1, version_info, timestamp }),
    {
        Self { object_count: 1, version_info, timestamp }
    }

    /// The carried value.
    pub fn version_info(&self) -> (r: &FireSystemVersion)
        ensures
            *r == self.version_info,
    {
        &self.version_info
    }

    /// The time label of the data unit.
    pub fn timestamp(&self) -> (r: &Timestamp)
        ensures
            *r == self.timestamp,
    {
        &self.timestamp
    }
}

impl DataUnit for UploadSoftwareVersion {
    open spec fn spec_encoding(&self) -> Seq<u8> {
        seq![self.object_count] + self.version_info.spec_bytes() + self.timestamp.spec_bytes()
    }

    open spec fn spec_encodable(&self) -> bool {
        true
    }

    fn data_unit_type(&self) -> (r: DataUnitType)
        ensures
            r == DataUnitType::UploadSoftwareVersion,
    {
        DataUnitType::UploadSoftwareVersion
    }

    fn encode(&self) -> (r: EncodeResult<Vec<u8>>) {
        let mut buf: Vec<u8> = Vec::new();
        buf.push(self.object_count);
        let info = match self.version_info.encode() {
            Ok(v) => v,
            Err(e) => {
                return Err(e);
            },
        };
        append_bytes(&mut buf, info.as_slice());
        let ts = self.timestamp.to_bytes();
        append_bytes(&mut buf, &ts);
        proof {
            assert(buf@ =~= self.spec_encoding());
        }
        Ok(buf)
    }

    fn parse(data: &[u8]) -> (r: ParseResult<Self>)
        ensures
            upload_software_version_parse_ok(data@, r),
    {
        if data.len() < 17 {
            return Err(ParseError::InsufficientData { expected: 17, actual: data.len() });
        }
        let object_count = data[0];
        if object_count != 1 {
            return Err(object_count_error(object_count, "Software version should have exactly 1 object"));
        }
        let version_info = match FireSystemVersion::parse(&data[1..11]) {
            Ok(v) => v,
            Err(e) => {
                return Err(e);
            },
        };
        let timestamp = match read_time(&data[11..17]) {
            Ok(t) => t,
            Err(e) => {
                return Err(e);
            },
        };
        Ok(Self { object_count, version_info, timestamp })
    }

    /// `Ok` exactly when the object count is 1.
    fn validate(&self) -> (r: ParseResult<()>)
        ensures
            r is Ok <==> self.object_count == 1,
            r matches Err(e) ==> object_count_error_of(self.object_count, e),
    {
        if self.object_count != 1 {
            return Err(object_count_error(self.object_count, "Software version should have exactly 1 object"));
        }
        Ok(())
    }
}

/// Upload of a system configuration.
#[derive(Debug, Clone, PartialEq, Eq)]
pub struct UploadSystemConfig {
    /// number of information objects (1)
    pub object_count: u8,
    /// the carried value
    pub config_info: FireSystemConfig,
    /// time label of the data unit
    pub timestamp: Timestamp,
}

/// The outcome of reading a system configuration data unit from `b`.
pub open spec fn upload_system_config_parse_ok(b: Seq<u8>, r: ParseResult<UploadSystemConfig>) -> bool {
    let info = b.subrange(1, b.len() - 6);
    let time = b.subrange(b.len() - 6, b.len() as int);
    let head_ok = b.len() >= 13 && b[0] == 1;
    &&& r is Ok <==> (head_ok && fire_system_config_bytes_ok(info) && bytes_are_valid_timestamp(time))
    &&& r matches Ok(u) ==> u.object_count == 1 && fire_system_config_parse_ok(info, Ok(u.config_info)) && u.timestamp
        == timestamp_of_bytes(time)
    &&& b.len() < 13 ==> (r matches Err(ParseError::InsufficientData { expected, actual })
        && expected == 13 && actual == b.len())
    &&& b.len() >= 13 && b[0] != 1 ==> (r matches Err(e) && object_count_error_of(b[0], e))
    &&& head_ok && !fire_system_config_bytes_ok(info) ==> (r matches Err(e) && fire_system_config_parse_ok(info, Err(e)))
    &&& head_ok && fire_system_config_bytes_ok(info) && !bytes_are_valid_timestamp(time) ==> (r matches Err(e)
        && timestamp_error_of(time, e))
}

impl UploadSystemConfig {
    /// Creates the data unit with object count 1.
    pub fn new(config_info: FireSystemConfig, timestamp: Timestamp) -> (r: Self)
        ensures
            r == (UploadSystemConfig { object_count: 1, config_info, timestamp }),
    {
        Self { object_count: 1, config_info, timestamp }
    }

    /// The carried value.
    pub fn config_info(&self) -> (r: &FireSystemConfig)
        ensures
            *r == self.config_info,
    {
        &self.config_info
    }

    /// The time label of the data unit.
    pub fn timestamp(&self) -> (r: &Timestamp)
        ensures
            *r == self.timestamp,
    {
        &self.timestamp
    }
}

impl DataUnit for UploadSystemConfig {
    open spec fn spec_encoding(&self) -> Seq<u8> {
        seq![self.object_count] + self.config_info.spec_bytes() + self.timestamp.spec_bytes()
    }

    open spec fn spec_encodable(&self) -> bool {
        true
    }

    fn data_unit_type(&self) -> (r: DataUnitType)
        ensures
            r == DataUnitType::UploadSystemConfig,
    {
        DataUnitType::UploadSystemConfig
    }

    fn encode(&self) -> (r: EncodeResult<Vec<u8>>) {
        let mut buf: Vec<u8> = Vec::new();
        buf.push(self.object_count);
        let info = match self.config_info.encode() {
            Ok(v) => v,
            Err(e) => {
                return Err(e);
            },
        };
        append_bytes(&mut buf, info.as_slice());
        let ts = self.timestamp.to_bytes();
        append_bytes(&mut buf, &ts);
        proof {
            assert(buf@ =~= self.spec_encoding());
        }
        Ok(buf)
    }

    fn parse(data: &[u8]) -> (r: ParseResult<Self>)
        ensures
            upload_system_config_parse_ok(data@, r),
    {
        if data.len() < 13 {
            return Err(ParseError::InsufficientData { expected: 13, actual: data.len() });
        }
        let object_count = data[0];
        if object_count != 1 {
            return Err(object_count_error(object_count, "System config should have exactly 1 object"));
        }
        let n = data.len() - 7;
        let config_info = match FireSystemConfig::parse(&data[1..1 + n]) {
            Ok(v) => v,
            Err(e) => {
                return Err(e);
            },
        };
        let timestamp = match read_time(&data[1 + n..7 + n]) {
            Ok(t) => t,
            Err(e) => {
                return Err(e);
            },
        };
        Ok(Self { object_count, config_info, timestamp })
    }

    /// `Ok` exactly when the object count is 1.
    fn validate(&self) -> (r: ParseResult<()>)
        ensures
            r is Ok <==> self.object_count == 1,
            r matches Err(e) ==> object_count_error_of(self.object_count, e),
    {
        if self.object_count != 1 {
            return Err(object_count_error(self.object_count, "System config should have exactly 1 object"));
        }
        Ok(())
    }
}

/// Upload of a component configuration.
#[derive(Debug, Clone, Copy, PartialEq, Eq)]
pub struct UploadComponentConfig {
    /// number of information objects (1)
    pub object_count: u8,
    /// the carried value
    pub config_info: ComponentConfig,
    /// time label of the data unit
    pub timestamp: Timestamp,
}

/// The outcome of reading a component configuration data unit from `b`.
pub open spec fn upload_component_config_parse_ok(b: Seq<u8>, r: ParseResult<UploadComponentConfig>) -> bool {
    let info = b.subrange(1, 45);
    let time = b.subrange(45, 51);
    let head_ok = b.len() >= 51 && b[0] == 1;
    &&& r is Ok <==> (head_ok && component_config_bytes_ok(info) && bytes_are_valid_timestamp(time))
    &&& r matches Ok(u) ==> u.object_count == 1 && component_config_parse_ok(info, Ok(u.config_info)) && u.timestamp
        == timestamp_of_bytes(time)
    &&& b.len() < 51 ==> (r matches Err(ParseError::InsufficientData { expected, actual })
        && expected == 51 && actual == b.len())
    &&& b.len() >= 51 && b[0] != 1 ==> (r matches Err(e) && object_count_error_of(b[0], e))
    &&& head_ok && !component_config_bytes_ok(info) ==> (r matches Err(e) && component_config_parse_ok(info, Err(e)))
    &&& head_ok && component_config_bytes_ok(info) && !bytes_are_valid_timestamp(time) ==> (r matches Err(e)
        && timestamp_error_of(time, e))
}

impl UploadComponentConfig {
    /// Creates the data unit with object count 1.
    pub fn new(config_info: ComponentConfig, timestamp: Timestamp) -> (r: Self)
        ensures
            r == (UploadComponentConfig { object_count: 1, config_info, timestamp }),
    {
        Self { object_count: 1, config_info, timestamp }
    }

    /// The carried value.
    pub fn config_info(&self) -> (r: &ComponentConfig)
        ensures
            *r == self.config_info,
    {
        &self.config_info
    }

    /// The time label of the data unit.
    pub fn timestamp(&self) -> (r: &Timestamp)
        ensures
            *r == self.timestamp,
    {
        &self.timestamp
    }
}

impl DataUnit for UploadComponentConfig {
    open spec fn spec_encoding(&self) -> Seq<u8> {
        seq![self.object_count] + self.config_info.spec_bytes() + self.timestamp.spec_bytes()
    }

    open spec fn spec_encodable(&self) -> bool {
        true
    }

    fn data_unit_type(&self) -> (r: DataUnitType)
        ensures
            r == DataUnitType::UploadComponentConfig,
    {
        DataUnitType::UploadComponentConfig
    }

    fn encode(&self) -> (r: EncodeResult<Vec<u8>>) {
        let mut buf: Vec<u8> = Vec::new();
        buf.push(self.object_count);
        let info = match self.config_info.encode() {
            Ok(v) => v,
            Err(e) => {
                return Err(e);
            },
        };
        append_bytes(&mut buf, info.as_slice());
        let ts = self.timestamp.to_bytes();
        append_bytes(&mut buf, &ts);
        proof {
            assert(buf@ =~= self.spec_encoding());
        }
        Ok(buf)
    }

    fn parse(data: &[u8]) -> (r: ParseResult<Self>)
        ensures
            upload_component_config_parse_ok(data@, r),
    {
        if data.len() < 51 {
            return Err(ParseError::InsufficientData { expected: 51, actual: data.len() });
        }
        let object_count = data[0];
        if object_count != 1 {
            return Err(object_count_error(object_count, "Component config should have exactly 1 object"));
        }
        let config_info = match ComponentConfig::parse(&data[1..45]) {
            Ok(v) => v,
            Err(e) => {
                return Err(e);
            },
        };
        let timestamp = match read_time(&data[45..51]) {
            Ok(t) => t,
            Err(e) => {
                return Err(e);
            },
        };
        Ok(Self { object_count, config_info, timestamp })
    }

    /// `Ok` exactly when the object count is 1.
    fn validate(&self) -> (r: ParseResult<()>)
        ensures
            r is Ok <==> self.object_count == 1,
            r matches Err(e) ==> object_count_error_of(self.object_count, e),
    {
        if self.object_count != 1 {
            return Err(object_count_error(self.object_count, "Component config should have exactly 1 object"));
        }
        Ok(())
    }
}

/// Upload of the system time.
#[derive(Debug, Clone, Copy, PartialEq, Eq, Structural)]
pub struct UploadSystemTime {
    /// number of information objects (1)
    pub object_count: u8,
    /// the carried value
    pub system_time: Timestamp,
    /// time label of the data unit
    pub timestamp: Timestamp,
}

/// The outcome of reading the system time data unit from `b`.
pub open spec fn upload_system_time_parse_ok(b: Seq<u8>, r: ParseResult<UploadSystemTime>) -> bool {
    let info = b.subrange(1, 7);
    let time = b.subrange(7, 13);
    let head_ok = b.len() >= 13 && b[0] == 1;
    &&& r is Ok <==> (head_ok && bytes_are_valid_timestamp(info) && bytes_are_valid_timestamp(time))
    &&& r matches Ok(u) ==> u.object_count == 1 && u.system_time == timestamp_of_bytes(info) && u.timestamp
        == timestamp_of_bytes(time)
    &&& b.len() < 13 ==> (r matches Err(ParseError::InsufficientData { expected, actual })
        && expected == 13 && actual == b.len())
    &&& b.len() >= 13 && b[0] != 1 ==> (r matches Err(e) && object_count_error_of(b[0], e))
    &&& head_ok && !bytes_are_valid_timestamp(info) ==> (r matches Err(e) && timestamp_error_of(
        info,
        e,
    ))
    &&& head_ok && bytes_are_valid_timestamp(info) && !bytes_are_valid_timestamp(time) ==> (r matches Err(
        e,
    ) && timestamp_error_of(time, e))
}

impl UploadSystemTime {
    /// Creates the data unit with object count 1.
    pub fn new(system_time: Timestamp, timestamp: Timestamp) -> (r: Self)
        ensures
            r == (UploadSystemTime { object_count: 1, system_time, timestamp }),
    {
        Self { object_count: 1, system_time, timestamp }
    }

    /// The carried value.
    pub fn system_time(&self) -> (r: &Timestamp)
        ensures
            *r == self.system_time,
    {
        &self.system_time
    }

    /// The time label of the data unit.
    pub fn timestamp(&self) -> (r: &Timestamp)
        ensures
            *r == self.timestamp,
    {
        &self.timestamp
    }
}

impl DataUnit for UploadSystemTime {
    open spec fn spec_encoding(&self) -> Seq<u8> {
        seq![self.object_count] + self.system_time.spec_bytes() + self.timestamp.spec_bytes()
    }

    open spec fn spec_encodable(&self) -> bool {
        true
    }

    fn data_unit_type(&self) -> (r: DataUnitType)
        ensures
            r == DataUnitType::UploadSystemTime,
    {
        DataUnitType::UploadSystemTime
    }

    fn encode(&self) -> (r: EncodeResult<Vec<u8>>) {
        let mut buf: Vec<u8> = Vec::new();
        buf.push(self.object_count);
        let tb = self.system_time.to_bytes();
        append_bytes(&mut buf, &tb);
        let ts = self.timestamp.to_bytes();
        append_bytes(&mut buf, &ts);
        proof {
            assert(buf@ =~= self.spec_encoding());
        }
        Ok(buf)
    }

    fn parse(data: &[u8]) -> (r: ParseResult<Self>)
        ensures
            upload_system_time_parse_ok(data@, r),
    {
        if data.len() < 13 {
            return Err(ParseError::InsufficientData { expected: 13, actual: data.len() });
        }
        let object_count = data[0];
        if object_count != 1 {
            return Err(object_count_error(object_count, "System time should have exactly 1 object"));
        }
        let system_time = match read_time(&data[1..7]) {
            Ok(t) => t,
            Err(e) => {
                return Err(e);
            },
        };
        let timestamp = match read_time(&data[7..13]) {
            Ok(t) => t,
            Err(e) => {
                return Err(e);
            },
        };
        Ok(Self { object_count, system_time, timestamp })
    }

    /// `Ok` exactly when the object count is 1.
    fn validate(&self) -> (r: ParseResult<()>)
        ensures
            r is Ok <==> self.object_count == 1,
            r matches Err(e) ==> object_count_error_of(self.object_count, e),
    {
        if self.object_count != 1 {
            return Err(object_count_error(self.object_count, "System time should have exactly 1 object"));
        }
        Ok(())
    }
}

/// Upload of the transmission device state.
#[derive(Debug, Clone, Copy, PartialEq, Eq, Structural)]
pub struct UploadDeviceStatus {
    /// number of information objects (1)
    pub object_count: u8,
    /// the carried value
    pub device_status: u16,
    /// time label of the data unit
    pub timestamp: Timestamp,
}

/// The outcome of reading the transmission device state data unit from `b`.
pub open spec fn upload_device_status_parse_ok(b: Seq<u8>, r: ParseResult<UploadDeviceStatus>) -> bool {
    let time = b.subrange(3, 9);
    let head_ok = b.len() >= 9 && b[0] == 1;
    &&& r is Ok <==> (head_ok && true && bytes_are_valid_timestamp(time))
    &&& r matches Ok(u) ==> u.object_count == 1 && u.device_status == le16(b[1], b[2]) && u.timestamp
        == timestamp_of_bytes(time)
    &&& b.len() < 9 ==> (r matches Err(ParseError::InsufficientData { expected, actual })
        && expected == 9 && actual == b.len())
    &&& b.len() >= 9 && b[0] != 1 ==> (r matches Err(e) && object_count_error_of(b[0], e))
    &&& head_ok && !bytes_are_valid_timestamp(time) ==> (r matches Err(e) && timestamp_error_of(
        time,
        e,
    ))
}

impl UploadDeviceStatus {
    /// Creates the data unit with object count 1.
    pub fn new(device_status: u16, timestamp: Timestamp) -> (r: Self)
        ensures
            r == (UploadDeviceStatus { object_count: 1, device_status, timestamp }),
    {
        Self { object_count: 1, device_status, timestamp }
    }

    /// The device state.
    pub fn device_status(&self) -> (r: u16)
        ensures
            r == self.device_status,
    {
        self.device_status
    }

    /// The time label of the data unit.
    pub fn timestamp(&self) -> (r: &Timestamp)
        ensures
            *r == self.timestamp,
    {
        &self.timestamp
    }
}

impl DataUnit for UploadDeviceStatus {
    open spec fn spec_encoding(&self) -> Seq<u8> {
        seq![self.object_count] + le16_bytes(self.device_status) + self.timestamp.spec_bytes()
    }

    open spec fn spec_encodable(&self) -> bool {
        true
    }

    fn data_unit_type(&self) -> (r: DataUnitType)
        ensures
            r == DataUnitType::UploadDeviceStatus,
    {
        DataUnitType::UploadDeviceStatus
    }

    fn encode(&self) -> (r: EncodeResult<Vec<u8>>) {
        let mut buf: Vec<u8> = Vec::new();
        buf.push(self.object_count);
        let st = u16_to_le(self.device_status);
        append_bytes(&mut buf, &st);
        let ts = self.timestamp.to_bytes();
        append_bytes(&mut buf, &ts);
        proof {
            assert(buf@ =~= self.spec_encoding());
        }
        Ok(buf)
    }

    fn parse(data: &[u8]) -> (r: ParseResult<Self>)
        ensures
            upload_device_status_parse_ok(data@, r),
    {
        if data.len() < 9 {
            return Err(ParseError::InsufficientData { expected: 9, actual: data.len() });
        }
        let object_count = data[0];
        if object_count != 1 {
            return Err(object_count_error(object_count, "Device status should have exactly 1 object"));
        }
        let device_status = u16_from_le(data[1], data[2]);
        let timestamp = match read_time(&data[3..9]) {
            Ok(t) => t,
            Err(e) => {
                return Err(e);
            },
        };
        Ok(Self { object_count, device_status, timestamp })
    }

    /// `Ok` exactly when the object count is 1.
    fn validate(&self) -> (r: ParseResult<()>)
        ensures
            r is Ok <==> self.object_count == 1,
            r matches Err(e) ==> object_count_error_of(self.object_count, e),
    {
        if self.object_count != 1 {
            return Err(object_count_error(self.object_count, "Device status should have exactly 1 object"));
        }
        Ok(())
    }
}

/// Upload of a device operation record.
#[derive(Debug, Clone, Copy, PartialEq, Eq, Structural)]
pub struct UploadDeviceOperation {
    /// number of information objects (1)
    pub object_count: u8,
    /// the carried value
    pub operation_info: DeviceOperation,
    /// time label of the data unit
    pub timestamp: Timestamp,
}

/// The outcome of reading a device operation record data unit from `b`.
pub open spec fn upload_device_operation_parse_ok(b: Seq<u8>, r: ParseResult<UploadDeviceOperation>) -> bool {
    let info = b.subrange(1, 9);
    let time = b.subrange(9, 15);
    let head_ok = b.len() >= 15 && b[0] == 1;
    &&& r is Ok <==> (head_ok && device_operation_bytes_ok(info) && bytes_are_valid_timestamp(time))
    &&& r matches Ok(u) ==> u.object_count == 1 && device_operation_parse_ok(info, Ok(u.operation_info)) && u.timestamp
        == timestamp_of_bytes(time)
    &&& b.len() < 15 ==> (r matches Err(ParseError::InsufficientData { expected, actual })
        && expected == 15 && actual == b.len())
    &&& b.len() >= 15 && b[0] != 1 ==> (r matches Err(e) && object_count_error_of(b[0], e))
    &&& head_ok && !device_operation_bytes_ok(info) ==> (r matches Err(e) && device_operation_parse_ok(info, Err(e)))
    &&& head_ok && device_operation_bytes_ok(info) && !bytes_are_valid_timestamp(time) ==> (r matches Err(e)
        && timestamp_error_of(time, e))
}

impl UploadDeviceOperation {
    /// Creates the data unit with object count 1.
    pub fn new(operation_info: DeviceOperation, timestamp: Timestamp) -> (r: Self)
        ensures
            r == (UploadDeviceOperation { object_count: 1, operation_info, timestamp }),
    {
        Self { object_count: 1, operation_info, timestamp }
    }

    /// The carried value.
    pub fn operation_info(&self) -> (r: &DeviceOperation)
        ensures
            *r == self.operation_info,
    {
        &self.operation_info
    }

    /// The time label of the data unit.
    pub fn timestamp(&self) -> (r: &Timestamp)
        ensures
            *r == self.timestamp,
    {
        &self.timestamp
    }
}

impl DataUnit for UploadDeviceOperation {
    open spec fn spec_encoding(&self) -> Seq<u8> {
        seq![self.object_count] + self.operation_info.spec_bytes() + self.timestamp.spec_bytes()
    }

    open spec fn spec_encodable(&self) -> bool {
        true
    }

    fn data_unit_type(&self) -> (r: DataUnitType)
        ensures
            r == DataUnitType::UploadDeviceOperation,
    {
        DataUnitType::UploadDeviceOperation
    }

    fn encode(&self) -> (r: EncodeResult<Vec<u8>>) {
        let mut buf: Vec<u8> = Vec::new();
        buf.push(self.object_count);
        let info = match self.operation_info.encode() {
            Ok(v) => v,
            Err(e) => {
                return Err(e);
            },
        };
        append_bytes(&mut buf, info.as_slice());
        let ts = self.timestamp.to_bytes();
        append_bytes(&mut buf, &ts);
        proof {
            assert(buf@ =~= self.spec_encoding());
        }
        Ok(buf)
    }

    fn parse(data: &[u8]) -> (r: ParseResult<Self>)
        ensures
            upload_device_operation_parse_ok(data@, r),
    {
        if data.len() < 15 {
            return Err(ParseError::InsufficientData { expected: 15, actual: data.len() });
        }
        let object_count = data[0];
        if object_count != 1 {
            return Err(object_count_error(object_count, "Device operation should have exactly 1 object"));
        }
        let operation_info = match DeviceOperation::parse(&data[1..9]) {
            Ok(v) => v,
            Err(e) => {
                return Err(e);
            },
        };
        let timestamp = match read_time(&data[9..15]) {
            Ok(t) => t,
            Err(e) => {
                return Err(e);
            },
        };
        Ok(Self { object_count, operation_info, timestamp })
    }

    /// `Ok` exactly when the object count is 1.
    fn validate(&self) -> (r: ParseResult<()>)
        ensures
            r is Ok <==> self.object_count == 1,
            r matches Err(e) ==> object_count_error_of(self.object_count, e),
    {
        if self.object_count != 1 {
            return Err(object_count_error(self.object_count, "Device operation should have exactly 1 object"));
        }
        Ok(())
    }
}

/// Upload of the device software version.
#[derive(Debug, Clone, Copy, PartialEq, Eq, Structural)]
pub struct UploadDeviceVersion {
    /// number of information objects (1)
    pub object_count: u8,
    /// the carried value
    pub version_info: DeviceVersion,
    /// time label of the data unit
    pub timestamp: Timestamp,
}

/// The outcome of reading the device software version data unit from `b`.
pub open spec fn upload_device_version_parse_ok(b: Seq<u8>, r: ParseResult<UploadDeviceVersion>) -> bool {
    let info = b.subrange(1, 9);
    let time = b.subrange(9, 15);
    let head_ok = b.len() >= 15 && b[0] == 1;
    &&& r is Ok <==> (head_ok && device_version_bytes_ok(info) && bytes_are_valid_timestamp(time))
    &&& r matches Ok(u) ==> u.object_count == 1 && device_version_parse_ok(info, Ok(u.version_info)) && u.timestamp
        == timestamp_of_bytes(time)
    &&& b.len() < 15 ==> (r matches Err(ParseError::InsufficientData { expected, actual })
        && expected == 15 && actual == b.len())
    &&& b.len() >= 15 && b[0] != 1 ==> (r matches Err(e) && object_count_error_of(b[0], e))
    &&& head_ok && !device_version_bytes_ok(info) ==> (r matches Err(e) && device_version_parse_ok(info, Err(e)))
    &&& head_ok && device_version_bytes_ok(info) && !bytes_are_valid_timestamp(time) ==> (r matches Err(e)
        && timestamp_error_of(time, e))
}

impl UploadDeviceVersion {
    /// Creates the data unit with object count 1.
    pub fn new(version_info: DeviceVersion, timestamp: Timestamp) -> (r: Self)
        ensures
            r == (UploadDeviceVersion { object_count: 1, version_info, timestamp }),
    {
        Self { object_count: 1, version_info, timestamp }
    }

    /// The carried value.
    pub fn version_info(&self) -> (r: &DeviceVersion)
        ensures
            *r == self.version_info,
    {
        &self.version_info
    }

    /// The time label of the data unit.
    pub fn timestamp(&self) -> (r: &Timestamp)
        ensures
            *r == self.timestamp,
    {
        &self.timestamp
    }
}

impl DataUnit for UploadDeviceVersion {
    open spec fn spec_encoding(&self) -> Seq<u8> {
        seq![self.object_count] + self.version_info.spec_bytes() + self.timestamp.spec_bytes()
    }

    open spec fn spec_encodable(&self) -> bool {
        true
    }

    fn data_unit_type(&self) -> (r: DataUnitType)
        ensures
            r == DataUnitType::UploadDeviceVersion,
    {
        DataUnitType::UploadDeviceVersion
    }

    fn encode(&self) -> (r: EncodeResult<Vec<u8>>) {
        let mut buf: Vec<u8> = Vec::new();
        buf.push(self.object_count);
        let info = match self.version_info.encode() {
            Ok(v) => v,
            Err(e) => {
                return Err(e);
            },
        };
        append_bytes(&mut buf, info.as_slice());
        let ts = self.timestamp.to_bytes();
        append_bytes(&mut buf, &ts);
        proof {
            assert(buf@ =~= self.spec_encoding());
        }
        Ok(buf)
    }

    fn parse(data: &[u8]) -> (r: ParseResult<Self>)
        ensures
            upload_device_version_parse_ok(data@, r),
    {
        if data.len() < 15 {
            return Err(ParseError::InsufficientData { expected: 15, actual: data.len() });
        }
        let object_count = data[0];
        if object_count != 1 {
            return Err(object_count_error(object_count, "Device version should have exactly 1 object"));
        }
        let version_info = match DeviceVersion::parse(&data[1..9]) {
            Ok(v) => v,
            Err(e) => {
                return Err(e);
            },
        };
        let timestamp = match read_time(&data[9..15]) {
            Ok(t) => t,
            Err(e) => {
                return Err(e);
            },
        };
        Ok(Self { object_count, version_info, timestamp })
    }

    /// `Ok` exactly when the object count is 1.
    fn validate(&self) -> (r: ParseResult<()>)
        ensures
            r is Ok <==> self.object_count == 1,
            r matches Err(e) ==> object_count_error_of(self.object_count, e),
    {
        if self.object_count != 1 {
            return Err(object_count_error(self.object_count, "Device version should have exactly 1 object"));
        }
        Ok(())
    }
}

/// Upload of the device configuration.
#[derive(Debug, Clone, PartialEq, Eq)]
pub struct UploadDeviceConfig {
    /// number of information objects (1)
    pub object_count: u8,
    /// the carried value
    pub config_info: DeviceConfig,
    /// time label of the data unit
    pub timestamp: Timestamp,
}

/// The outcome of reading the device configuration data unit from `b`.
pub open spec fn upload_device_config_parse_ok(b: Seq<u8>, r: ParseResult<UploadDeviceConfig>) -> bool {
    let info = b.subrange(1, 27);
    let time = b.subrange(27, 33);
    let head_ok = b.len() >= 33 && b[0] == 1;
    &&& r is Ok <==> (head_ok && device_config_bytes_ok(info) && bytes_are_valid_timestamp(time))
    &&& r matches Ok(u) ==> u.object_count == 1 && device_config_parse_ok(info, Ok(u.config_info)) && u.timestamp
        == timestamp_of_bytes(time)
    &&& b.len() < 33 ==> (r matches Err(ParseError::InsufficientData { expected, actual })
        && expected == 33 && actual == b.len())
    &&& b.len() >= 33 && b[0] != 1 ==> (r matches Err(e) && object_count_error_of(b[0], e))
    &&& head_ok && !device_config_bytes_ok(info) ==> (r matches Err(e) && device_config_parse_ok(info, Err(e)))
    &&& head_ok && device_config_bytes_ok(info) && !bytes_are_valid_timestamp(time) ==> (r matches Err(e)
        && timestamp_error_of(time, e))
}

impl UploadDeviceConfig {
    /// Creates the data unit with object count 1.
    pub fn new(config_info: DeviceConfig, timestamp: Timestamp) -> (r: Self)
        ensures
            r == (UploadDeviceConfig { object_count: 1, config_info, timestamp }),
    {
        Self { object_count: 1, config_info, timestamp }
    }

    /// The carried value.
    pub fn config_info(&self) -> (r: &DeviceConfig)
        ensures
            *r == self.config_info,
    {
        &self.config_info
    }

    /// The time label of the data unit.
    pub fn timestamp(&self) -> (r: &Timestamp)
        ensures
            *r == self.timestamp,
    {
        &self.timestamp
    }
}

impl DataUnit for UploadDeviceConfig {
    open spec fn spec_encoding(&self) -> Seq<u8> {
        seq![self.object_count] + self.config_info.spec_bytes() + self.timestamp.spec_bytes()
    }

    open spec fn spec_encodable(&self) -> bool {
        true
    }

    fn data_unit_type(&self) -> (r: DataUnitType)
        ensures
            r == DataUnitType::UploadDeviceConfig,
    {
        DataUnitType::UploadDeviceConfig
    }

    fn encode(&self) -> (r: EncodeResult<Vec<u8>>) {
        let mut buf: Vec<u8> = Vec::new();
        buf.push(self.object_count);
        let info = match self.config_info.encode() {
            Ok(v) => v,
            Err(e) => {
                return Err(e);
            },
        };
        append_bytes(&mut buf, info.as_slice());
        let ts = self.timestamp.to_bytes();
        append_bytes(&mut buf, &ts);
        proof {
            assert(buf@ =~= self.spec_encoding());
        }
        Ok(buf)
    }

    fn parse(data: &[u8]) -> (r: ParseResult<Self>)
        ensures
            upload_device_config_parse_ok(data@, r),
    {
        if data.len() < 33 {
            return Err(ParseError::InsufficientData { expected: 33, actual: data.len() });
        }
        let object_count = data[0];
        if object_count != 1 {
            return Err(object_count_error(object_count, "Device config should have exactly 1 object"));
        }
        let config_info = match DeviceConfig::parse(&data[1..27]) {
            Ok(v) => v,
            Err(e) => {
                return Err(e);
            },
        };
        let timestamp = match read_time(&data[27..33]) {
            Ok(t) => t,
            Err(e) => {
                return Err(e);
            },
        };
        Ok(Self { object_count, config_info, timestamp })
    }

    /// `Ok` exactly when the object count is 1.
    fn validate(&self) -> (r: ParseResult<()>)
        ensures
            r is Ok <==> self.object_count == 1,
            r matches Err(e) ==> object_count_error_of(self.object_count, e),
    {
        if self.object_count != 1 {
            return Err(object_count_error(self.object_count, "Device config should have exactly 1 object"));
        }
        Ok(())
    }
}

/// Upload of the device time.
#[derive(Debug, Clone, Copy, PartialEq, Eq, Structural)]
pub struct UploadDeviceTime {
    /// number of information objects (1)
    pub object_count: u8,
    /// the carried value
    pub device_time: Timestamp,
    /// time label of the data unit
    pub timestamp: Timestamp,
}

/// The outcome of reading the device time data unit from `b`.
pub open spec fn upload_device_time_parse_ok(b: Seq<u8>, r: ParseResult<UploadDeviceTime>) -> bool {
    let info = b.subrange(1, 7);
    let time = b.subrange(7, 13);
    let head_ok = b.len() >= 13 && b[0] == 1;
    &&& r is Ok <==> (head_ok && bytes_are_valid_timestamp(info) && bytes_are_valid_timestamp(time))
    &&& r matches Ok(u) ==> u.object_count == 1 && u.device_time == timestamp_of_bytes(info) && u.timestamp
        == timestamp_of_bytes(time)
    &&& b.len() < 13 ==> (r matches Err(ParseError::InsufficientData { expected, actual })
        && expected == 13 && actual == b.len())
    &&& b.len() >= 13 && b[0] != 1 ==> (r matches Err(e) && object_count_error_of(b[0], e))
    &&& head_ok && !bytes_are_valid_timestamp(info) ==> (r matches Err(e) && timestamp_error_of(
        info,
        e,
    ))
    &&& head_ok && bytes_are_valid_timestamp(info) && !bytes_are_valid_timestamp(time) ==> (r matches Err(
        e,
    ) && timestamp_error_of(time, e))
}

impl UploadDeviceTime {
    /// Creates the data unit with object count 1.
    pub fn new(device_time: Timestamp, timestamp: Timestamp) -> (r: Self)
        ensures
            r == (UploadDeviceTime { object_count: 1, device_time, timestamp }),
    {
        Self { object_count: 1, device_time, timestamp }
    }

    /// The carried value.
    pub fn device_time(&self) -> (r: &Timestamp)
        ensures
            *r == self.device_time,
    {
        &self.device_time
    }

    /// The time label of the data unit.
    pub fn timestamp(&self) -> (r: &Timestamp)
        ensures
            *r == self.timestamp,
    {
        &self.timestamp
    }
}

impl DataUnit for UploadDeviceTime {
    open spec fn spec_encoding(&self) -> Seq<u8> {
        seq![self.object_count] + self.device_time.spec_bytes() + self.timestamp.spec_bytes()
    }

    open spec fn spec_encodable(&self) -> bool {
        true
    }

    fn data_unit_type(&self) -> (r: DataUnitType)
        ensures
            r == DataUnitType::UploadDeviceTime,
    {
        DataUnitType::UploadDeviceTime
    }

    fn encode(&self) -> (r: EncodeResult<Vec<u8>>) {
        let mut buf: Vec<u8> = Vec::new();
        buf.push(self.object_count);
        let tb = self.device_time.to_bytes();
        append_bytes(&mut buf, &tb);
        let ts = self.timestamp.to_bytes();
        append_bytes(&mut buf, &ts);
        proof {
            assert(buf@ =~= self.spec_encoding());
        }
        Ok(buf)
    }

    fn parse(data: &[u8]) -> (r: ParseResult<Self>)
        ensures
            upload_device_time_parse_ok(data@, r),
    {
        if data.len() < 13 {
            return Err(ParseError::InsufficientData { expected: 13, actual: data.len() });
        }
        let object_count = data[0];
        if object_count != 1 {
            return Err(object_count_error(object_count, "Device time should have exactly 1 object"));
        }
        let device_time = match read_time(&data[1..7]) {
            Ok(t) => t,
            Err(e) => {
                return Err(e);
            },
        };
        let timestamp = match read_time(&data[7..13]) {
            Ok(t) => t,
            Err(e) => {
                return Err(e);
            },
        };
        Ok(Self { object_count, device_time, timestamp })
    }

    /// `Ok` exactly when the object count is 1.
    fn validate(&self) -> (r: ParseResult<()>)
        ensures
            r is Ok <==> self.object_count == 1,
            r matches Err(e) ==> object_count_error_of(self.object_count, e),
    {
        if self.object_count != 1 {
            return Err(object_count_error(self.object_count, "Device time should have exactly 1 object"));
        }
        Ok(())
    }
}

/// Reading back the bytes of an upload of a representable system state
/// gives the data unit.
pub proof fn law_upload_system_status_roundtrip(u: UploadSystemStatus)
    requires
        u.object_count == 1,
        u.system_status.wire_representable(),
        u.timestamp.spec_is_valid(),
    ensures
        upload_system_status_parse_ok(u.spec_encoding(), Ok(u)),
{
    let b = u.spec_encoding();
    crate::info_object::system_status::law_system_status_roundtrip(u.system_status);
    assert(b.subrange(1, 11) =~= u.system_status.spec_bytes());
    assert(b.subrange(11, 17) =~= u.timestamp.spec_bytes());
    assert(timestamp_of_bytes(u.timestamp.spec_bytes()) == u.timestamp);
}

/// Reading back the bytes of an upload of a representable system
/// configuration gives the data unit.
pub proof fn law_upload_system_config_roundtrip(u: UploadSystemConfig)
    requires
        u.object_count == 1,
        u.config_info.wire_representable(),
        u.timestamp.spec_is_valid(),
    ensures
        upload_system_config_parse_ok(u.spec_encoding(), Ok(u)),
{
    let b = u.spec_encoding();
    let c = u.config_info;
    let n = c.config_description@.len() as int;
    crate::info_object::config::law_fire_system_config_roundtrip(c);
    assert(b.subrange(1, b.len() - 6) =~= c.spec_bytes());
    assert(b.subrange(b.len() - 6, b.len() as int) =~= u.timestamp.spec_bytes());
    assert(timestamp_of_bytes(u.timestamp.spec_bytes()) == u.timestamp);
    assert(c.spec_bytes()[2] == n);
}

/// Reading back the bytes of an upload of valid system time labels gives the
/// data unit.
pub proof fn law_upload_system_time_roundtrip(u: UploadSystemTime)
    requires
        u.object_count == 1,
        u.system_time.spec_is_valid(),
        u.timestamp.spec_is_valid(),
    ensures
        upload_system_time_parse_ok(u.spec_encoding(), Ok(u)),
{
    let b = u.spec_encoding();
    assert(b.subrange(1, 7) =~= u.system_time.spec_bytes());
    assert(b.subrange(7, 13) =~= u.timestamp.spec_bytes());
    assert(timestamp_of_bytes(u.system_time.spec_bytes()) == u.system_time);
    assert(timestamp_of_bytes(u.timestamp.spec_bytes()) == u.timestamp);
}

/// Reading back the bytes of an upload of the device state gives the data
/// unit.
pub proof fn law_upload_device_status_roundtrip(u: UploadDeviceStatus)
    requires
        u.object_count == 1,
        u.timestamp.spec_is_valid(),
    ensures
        upload_device_status_parse_ok(u.spec_encoding(), Ok(u)),
{
    let b = u.spec_encoding();
    crate::wire::lemma_le16_roundtrip(u.device_status);
    assert(b.subrange(3, 9) =~= u.timestamp.spec_bytes());
    assert(timestamp_of_bytes(u.timestamp.spec_bytes()) == u.timestamp);
}

/// Reading back the bytes of an upload of valid device time labels gives the
/// data unit.
pub proof fn law_upload_device_time_roundtrip(u: UploadDeviceTime)
    requires
        u.object_count == 1,
        u.device_time.spec_is_valid(),
        u.timestamp.spec_is_valid(),
    ensures
        upload_device_time_parse_ok(u.spec_encoding(), Ok(u)),
{
    let b = u.spec_encoding();
    assert(b.subrange(1, 7) =~= u.device_time.spec_bytes());
    assert(b.subrange(7, 13) =~= u.timestamp.spec_bytes());
    assert(timestamp_of_bytes(u.device_time.spec_bytes()) == u.device_time);
    assert(timestamp_of_bytes(u.timestamp.spec_bytes()) == u.timestamp);
}

/// Reading back the bytes of an upload of a representable system operation
/// record gives the data unit.
pub proof fn law_upload_operation_info_roundtrip(u: UploadOperationInfo)
    requires
        u.object_count == 1,
        u.operation_info.wire_representable(),
        u.timestamp.spec_is_valid(),
    ensures
        upload_operation_info_parse_ok(u.spec_encoding(), Ok(u)),
{
    let b = u.spec_encoding();
    crate::info_object::operation::law_fire_system_operation_roundtrip(u.operation_info);
    assert(b.subrange(1, 11) =~= u.operation_info.spec_bytes());
    assert(b.subrange(11, 17) =~= u.timestamp.spec_bytes());
    assert(timestamp_of_bytes(u.timestamp.spec_bytes()) == u.timestamp);
}

/// Reading back the bytes of an upload of a representable component status
/// gives the data unit.
pub proof fn law_upload_component_status_roundtrip(u: UploadComponentStatus)
    requires
        u.object_count == 1,
        u.component_status.wire_representable(),
        u.timestamp.spec_is_valid(),
    ensures
        upload_component_status_parse_ok(u.spec_encoding(), Ok(u)),
{
    let b = u.spec_encoding();
    crate::info_object::component_status::law_component_status_roundtrip(u.component_status);
    assert(b.subrange(1, 47) =~= u.component_status.spec_bytes());
    assert(b.subrange(47, 53) =~= u.timestamp.spec_bytes());
    assert(timestamp_of_bytes(u.timestamp.spec_bytes()) == u.timestamp);
}

/// Reading back the bytes of an upload of a representable analog value
/// gives the data unit.
pub proof fn law_upload_analog_value_roundtrip(u: UploadAnalogValue)
    requires
        u.object_count == 1,
        u.analog_value.wire_representable(),
        u.timestamp.spec_is_valid(),
    ensures
        upload_analog_value_parse_ok(u.spec_encoding(), Ok(u)),
{
    let b = u.spec_encoding();
    crate::info_object::analog_value::law_analog_value_roundtrip(u.analog_value);
    assert(b.subrange(1, 17) =~= u.analog_value.spec_bytes());
    assert(b.subrange(17, 23) =~= u.timestamp.spec_bytes());
    assert(timestamp_of_bytes(u.timestamp.spec_bytes()) == u.timestamp);
}

/// Reading back the bytes of an upload of a representable system software version
/// gives the data unit.
pub proof fn law_upload_software_version_roundtrip(u: UploadSoftwareVersion)
    requires
        u.object_count == 1,
        u.version_info.wire_representable(),
        u.timestamp.spec_is_valid(),
    ensures
        upload_software_version_parse_ok(u.spec_encoding(), Ok(u)),
{
    let b = u.spec_encoding();
    crate::info_object::version::law_fire_system_version_roundtrip(u.version_info);
    assert(b.subrange(1, 11) =~= u.version_info.spec_bytes());
    assert(b.subrange(11, 17) =~= u.timestamp.spec_bytes());
    assert(timestamp_of_bytes(u.timestamp.spec_bytes()) == u.timestamp);
}

/// Reading back the bytes of an upload of a representable component configuration
/// gives the data unit.
pub proof fn law_upload_component_config_roundtrip(u: UploadComponentConfig)
    requires
        u.object_count == 1,
        u.config_info.wire_representable(),
        u.timestamp.spec_is_valid(),
    ensures
        upload_component_config_parse_ok(u.spec_encoding(), Ok(u)),
{
    let b = u.spec_encoding();
    crate::info_object::config::law_component_config_roundtrip(u.config_info);
    assert(b.subrange(1, 45) =~= u.config_info.spec_bytes());
    assert(b.subrange(45, 51) =~= u.timestamp.spec_bytes());
    assert(timestamp_of_bytes(u.timestamp.spec_bytes()) == u.timestamp);
}

/// Reading back the bytes of an upload of a representable device operation record
/// gives the data unit.
pub proof fn law_upload_device_operation_roundtrip(u: UploadDeviceOperation)
    requires
        u.object_count == 1,
        u.operation_info.timestamp.spec_is_valid(),
        u.timestamp.spec_is_valid(),
    ensures
        upload_device_operation_parse_ok(u.spec_encoding(), Ok(u)),
{
    let b = u.spec_encoding();
    crate::info_object::operation::law_device_operation_roundtrip(u.operation_info);
    assert(b.subrange(1, 9) =~= u.operation_info.spec_bytes());
    assert(b.subrange(9, 15) =~= u.timestamp.spec_bytes());
    assert(timestamp_of_bytes(u.timestamp.spec_bytes()) == u.timestamp);
}

/// Reading back the bytes of an upload of a representable device software version
/// gives the data unit.
pub proof fn law_upload_device_version_roundtrip(u: UploadDeviceVersion)
    requires
        u.object_count == 1,
        u.version_info.timestamp.spec_is_valid(),
        u.timestamp.spec_is_valid(),
    ensures
        upload_device_version_parse_ok(u.spec_encoding(), Ok(u)),
{
    let b = u.spec_encoding();
    crate::info_object::version::law_device_version_roundtrip(u.version_info);
    assert(b.subrange(1, 9) =~= u.version_info.spec_bytes());
    assert(b.subrange(9, 15) =~= u.timestamp.spec_bytes());
    assert(timestamp_of_bytes(u.timestamp.spec_bytes()) == u.timestamp);
}

} // verus!
