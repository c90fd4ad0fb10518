//! Builders for the upstream data units carrying one information object:
//! the fields are set one by one, and `build` checks that each is present
//! and that the data unit type fits.
use crate::data_unit::standard::upstream;
use crate::data_unit::GenericDataUnit;
use crate::error::{ParseError, ParseResult};
use crate::frame::Timestamp;
use crate::info_object::{AnalogType, AnalogValue, ComponentStatus, SystemStatus};
use crate::protocol::{ComponentType, DataUnitType, SystemType};
use vstd::prelude::*;
use vstd::string::StringSliceAdditionalSpecFns;

verus! {

/// The error for a field that was not set: `InvalidValue` naming it, with
/// value `None`.
pub open spec fn missing_field_error_of(field: Seq<char>, e: ParseError) -> bool {
    e matches ParseError::InvalidValue { field: f, value, .. } && f@ == field && value@ == "None"@
}

fn missing_field_error(field: &str, reason: &str) -> (e: ParseError)
    ensures
        missing_field_error_of(field@, e),
{
    ParseError::InvalidValue { field: field.to_owned(), value: "None".to_owned(), reason: reason.to_owned() }
}

/// The error for a data unit type that does not fit the builder:
/// `InvalidValue` naming `data_unit_type`, with the type's debug rendering.
pub open spec fn wrong_type_error_of(t: DataUnitType, e: ParseError) -> bool {
    e matches ParseError::InvalidValue { field, value, .. } && field@ == "data_unit_type"@ && value@
        == t.spec_debug_text()
}

fn wrong_type_error(t: DataUnitType, reason: &str) -> (e: ParseError)
    ensures
        wrong_type_error_of(t, e),
{
    ParseError::InvalidValue { field: "data_unit_type".to_owned(), value: t.debug_text(), reason: reason.to_owned() }
}

/// The description field holding `text`: its first 31 bytes, then zeros.
pub open spec fn description_field(text: Seq<u8>) -> Seq<u8> {
    Seq::new(31, |i: int| if i < text.len() { text[i] } else { 0u8 })
}

/// The description field holding `text`, cut to 31 bytes and padded with
/// zeros.
fn description_of_text(text: &[u8]) -> (r: [u8; 31])
    ensures
        r@ == description_field(text@),
{
    let mut out = [0u8; 31];
    let mut i: usize = 0;
    while i < 31 && i < text.len()
        invariant
            i <= 31,
            i <= text@.len(),
            forall|k: int| 0 <= k < 31 ==> #[trigger] out@[k] == (if k < i { text@[k] } else { 0u8 }),
        decreases 31 - i,
    {
        out[i] = text[i];
        i = i + 1;
    }
    proof {
        assert(out@ =~= description_field(text@));
    }
    out
}

/// Entry point: picks the builder for the kind of information object.
pub struct DataUnitBuilder {
    data_unit_type: DataUnitType,
}

impl DataUnitBuilder {
    /// The data unit type the built unit is to have.
    pub closed spec fn spec_type(self) -> DataUnitType {
        self.data_unit_type
    }

    /// A builder for data units of type `data_unit_type`.
    pub fn new(data_unit_type: DataUnitType) -> (r: Self)
        ensures
            r.spec_type() == data_unit_type,
    {
        Self { data_unit_type }
    }

    /// Continues with a builder for this kind of object.
    pub fn system_status(self) -> (r: SystemStatusBuilder)
        ensures
            r == SystemStatusBuilder::spec_new(self.spec_type()),
    {
        SystemStatusBuilder::new(self.data_unit_type)
    }

    /// Continues with a builder for this kind of object.
    pub fn component_status(self) -> (r: ComponentStatusBuilder)
        ensures
            r == ComponentStatusBuilder::spec_new(self.spec_type()),
    {
        ComponentStatusBuilder::new(self.data_unit_type)
    }

    /// Continues with a builder for this kind of object.
    pub fn analog_value(self) -> (r: AnalogValueBuilder)
        ensures
            r == AnalogValueBuilder::spec_new(self.spec_type()),
    {
        AnalogValueBuilder::new(self.data_unit_type)
    }

    /// Continues with a builder for this kind of object.
    pub fn operation_info(self) -> (r: OperationInfoBuilder)
        ensures
            r == OperationInfoBuilder::spec_new(self.spec_type()),
    {
        OperationInfoBuilder::new(self.data_unit_type)
    }

    /// Continues with a builder for this kind of object.
    pub fn version_info(self) -> (r: VersionInfoBuilder)
        ensures
            r == VersionInfoBuilder::spec_new(self.spec_type()),
    {
        VersionInfoBuilder::new(self.data_unit_type)
    }

    /// Continues with a builder for this kind of object.
    pub fn config_info(self) -> (r: ConfigInfoBuilder)
        ensures
            r == ConfigInfoBuilder::spec_new(self.spec_type()),
    {
        ConfigInfoBuilder::new(self.data_unit_type)
    }

    /// Continues with a builder for this kind of object.
    pub fn time_info(self) -> (r: TimeInfoBuilder)
        ensures
            r == TimeInfoBuilder::spec_new(self.spec_type()),
    {
        TimeInfoBuilder::new(self.data_unit_type)
    }
}

/// Builder of an upload of a system state.
pub struct SystemStatusBuilder {
    /// the data unit type to build
    pub data_unit_type: DataUnitType,
    /// system type, once set
    pub system_type: Option<SystemType>,
    /// system address, once set
    pub system_address: Option<u8>,
    /// system state, once set
    pub system_state: Option<u16>,
    /// time label, once set
    pub timestamp: Option<Timestamp>,
}

impl SystemStatusBuilder {
    /// A builder with nothing set.
    pub open spec fn spec_new(data_unit_type: DataUnitType) -> Self {
        SystemStatusBuilder { data_unit_type, system_type: None, system_address: None, system_state: None, timestamp: None }
    }

    /// Whether every field is set.
    pub open spec fn complete(self) -> bool {
        self.system_type is Some && self.system_address is Some && self.system_state is Some && self.timestamp is Some
    }

    /// The information object the set fields make.
    pub open spec fn spec_info(self) -> SystemStatus {
        SystemStatus { system_type: self.system_type->0, system_address: self.system_address->0, system_state: self.system_state->0, timestamp: self.timestamp->0 }
    }

    fn new(data_unit_type: DataUnitType) -> (r: Self)
        ensures
            r == Self::spec_new(data_unit_type),
    {
        Self { data_unit_type, system_type: None, system_address: None, system_state: None, timestamp: None }
    }

    /// Sets the system type.
    pub fn system_type(self, system_type: SystemType) -> (r: Self)
        ensures
            r == (SystemStatusBuilder { system_type: Some(system_type), ..self }),
    {
        let mut s = self;
        s.system_type = Some(system_type);
        s
    }

    /// Sets the system address.
    pub fn system_address(self, address: u8) -> (r: Self)
        ensures
            r == (SystemStatusBuilder { system_address: Some(address), ..self }),
    {
        let mut s = self;
        s.system_address = Some(address);
        s
    }

    /// Sets the system state.
    pub fn system_state(self, state: u16) -> (r: Self)
        ensures
            r == (SystemStatusBuilder { system_state: Some(state), ..self }),
    {
        let mut s = self;
        s.system_state = Some(state);
        s
    }

    /// Sets the timestamp.
    pub fn timestamp(self, timestamp: Timestamp) -> (r: Self)
        ensures
            r == (SystemStatusBuilder { timestamp: Some(timestamp), ..self }),
    {
        let mut s = self;
        s.timestamp = Some(timestamp);
        s
    }

    /// The upload of the system state made of the set fields, stamped with
    /// the set time label; refuses a missing field (the first in the order
    /// of the setters) and a data unit type other than UploadSystemStatus.
    pub fn build(self) -> (r: ParseResult<GenericDataUnit>)
        ensures
            r is Ok <==> (self.complete() && self.data_unit_type == DataUnitType::UploadSystemStatus),
            r matches Ok(g) ==> g == GenericDataUnit::UploadSystemStatus(upstream::UploadSystemStatus {
                object_count: 1,
                system_status: self.spec_info(),
                timestamp: self.timestamp->0,
            }),
            self.system_type is None ==> (r matches Err(e) && missing_field_error_of("system_type"@, e)),
            self.system_type is Some && self.system_address is None ==> (r matches Err(e) && missing_field_error_of("system_address"@, e)),
            self.system_type is Some && self.system_address is Some && self.system_state is None ==> (r matches Err(e) && missing_field_error_of("system_state"@, e)),
            self.system_type is Some && self.system_address is Some && self.system_state is Some && self.timestamp is None ==> (r matches Err(e) && missing_field_error_of("timestamp"@, e)),
            self.complete() && self.data_unit_type != DataUnitType::UploadSystemStatus ==> (r matches Err(e)
                && wrong_type_error_of(self.data_unit_type, e)),
    {
        let system_type = match self.system_type {
            Some(v) => v,
            None => {
                return Err(missing_field_error("system_type", "System type is required"));
            },
        };
        let system_address = match self.system_address {
            Some(v) => v,
            None => {
                return Err(missing_field_error("system_address", "System address is required"));
            },
        };
        let system_state = match self.system_state {
            Some(v) => v,
            None => {
                return Err(missing_field_error("system_state", "System state is required"));
            },
        };
        let timestamp = match self.timestamp {
            Some(v) => v,
            None => {
                return Err(missing_field_error("timestamp", "Timestamp is required"));
            },
        };
        let info = SystemStatus::new(system_type, system_address, system_state, timestamp);
        match self.data_unit_type {
            DataUnitType::UploadSystemStatus => Ok(GenericDataUnit::UploadSystemStatus(upstream::UploadSystemStatus::new(info, timestamp))),
            _ => Err(wrong_type_error(self.data_unit_type, "Incompatible data unit type for system status")),
        }
    }
}

/// Builder of an upload of a component state.
pub struct ComponentStatusBuilder {
    /// the data unit type to build
    pub data_unit_type: DataUnitType,
    /// system type, once set
    pub system_type: Option<SystemType>,
    /// system address, once set
    pub system_address: Option<u8>,
    /// component type, once set
    pub component_type: Option<ComponentType>,
    /// component address, once set
    pub component_address: Option<u32>,
    /// component state, once set
    pub component_state: Option<u16>,
    /// description bytes
    pub component_description: [u8; 31],
    /// time label, once set
    pub timestamp: Option<Timestamp>,
}

impl ComponentStatusBuilder {
    /// A builder with nothing set.
    pub open spec fn spec_new(data_unit_type: DataUnitType) -> Self {
        ComponentStatusBuilder { data_unit_type, system_type: None, system_address: None, component_type: None, component_address: None, component_state: None, timestamp: None, component_description: vstd::array::spec_array_fill_for_copy_type::<u8, 31>(0u8) }
    }

    /// Whether every field is set.
    pub open spec fn complete(self) -> bool {
        self.system_type is Some && self.system_address is Some && self.component_type is Some && self.component_address is Some && self.component_state is Some && self.timestamp is Some
    }

    /// The information object the set fields make.
    pub open spec fn spec_info(self) -> ComponentStatus {
        ComponentStatus { system_type: self.system_type->0, system_address: self.system_address->0, component_type: self.component_type->0, component_address: self.component_address->0, component_state: self.component_state->0, component_description: self.component_description, timestamp: self.timestamp->0 }
    }

    fn new(data_unit_type: DataUnitType) -> (r: Self)
        ensures
            r == Self::spec_new(data_unit_type),
    {
        Self {
            data_unit_type,
            system_type: None,
            system_address: None,
            component_type: None,
            component_address: None,
            component_state: None,
            component_description: vstd::array::array_fill_for_copy_types(0u8),
            timestamp: None,
        }
    }

    /// Sets the system type.
    pub fn system_type(self, system_type: SystemType) -> (r: Self)
        ensures
            r == (ComponentStatusBuilder { system_type: Some(system_type), ..self }),
    {
        let mut s = self;
        s.system_type = Some(system_type);
        s
    }

    /// Sets the system address.
    pub fn system_address(self, address: u8) -> (r: Self)
        ensures
            r == (ComponentStatusBuilder { system_address: Some(address), ..self }),
    {
        let mut s = self;
        s.system_address = Some(address);
        s
    }

    /// Sets the component type.
    pub fn component_type(self, component_type: ComponentType) -> (r: Self)
        ensures
            r == (ComponentStatusBuilder { component_type: Some(component_type), ..self }),
    {
        let mut s = self;
        s.component_type = Some(component_type);
        s
    }

    /// Sets the component address.
    pub fn component_address(self, address: u32) -> (r: Self)
        ensures
            r == (ComponentStatusBuilder { component_address: Some(address), ..self }),
    {
        let mut s = self;
        s.component_address = Some(address);
        s
    }

    /// Sets the component state.
    pub fn component_state(self, state: u16) -> (r: Self)
        ensures
            r == (ComponentStatusBuilder { component_state: Some(state), ..self }),
    {
        let mut s = self;
        s.component_state = Some(state);
        s
    }

    /// Sets the timestamp.
    pub fn timestamp(self, timestamp: Timestamp) -> (r: Self)
        ensures
            r == (ComponentStatusBuilder { timestamp: Some(timestamp), ..self }),
    {
        let mut s = self;
        s.timestamp = Some(timestamp);
        s
    }

    /// Sets the description to the UTF-8 bytes of `text`, cut to 31 bytes
    /// and padded with zeros, whatever was set before.
    pub fn description(self, text: &str) -> (r: Self)
        ensures
            r.component_description@ == description_field(text.spec_bytes()),
            r == (ComponentStatusBuilder { component_description: r.component_description, ..self }),
    {
        let mut s = self;
        s.component_description = description_of_text(text.as_bytes());
        s
    }

    /// Replaces the description bytes.
    pub fn description_bytes(self, desc: [u8; 31]) -> (r: Self)
        ensures
            r == (ComponentStatusBuilder { component_description: desc, ..self }),
    {
        let mut s = self;
        s.component_description = desc;
        s
    }

    /// The upload of the component state made of the set fields, stamped with
    /// the set time label; refuses a missing field (the first in the order
    /// of the setters) and a data unit type other than UploadComponentStatus.
    pub fn build(self) -> (r: ParseResult<GenericDataUnit>)
        ensures
            r is Ok <==> (self.complete() && self.data_unit_type == DataUnitType::UploadComponentStatus),
            r matches Ok(g) ==> g == GenericDataUnit::UploadComponentStatus(upstream::UploadComponentStatus {
                object_count: 1,
                component_status: self.spec_info(),
                timestamp: self.timestamp->0,
            }),
            self.system_type is None ==> (r matches Err(e) && missing_field_error_of("system_type"@, e)),
            self.system_type is Some && self.system_address is None ==> (r matches Err(e) && missing_field_error_of("system_address"@, e)),
            self.system_type is Some && self.system_address is Some && self.component_type is None ==> (r matches Err(e) && missing_field_error_of("component_type"@, e)),
            self.system_type is Some && self.system_address is Some && self.component_type is Some && self.component_address is None ==> (r matches Err(e) && missing_field_error_of("component_address"@, e)),
            self.system_type is Some && self.system_address is Some && self.component_type is Some && self.component_address is Some && self.component_state is None ==> (r matches Err(e) && missing_field_error_of("component_state"@, e)),
            self.system_type is Some && self.system_address is Some && self.component_type is Some && self.component_address is Some && self.component_state is Some && self.timestamp is None ==> (r matches Err(e) && missing_field_error_of("timestamp"@, e)),
            self.complete() && self.data_unit_type != DataUnitType::UploadComponentStatus ==> (r matches Err(e)
                && wrong_type_error_of(self.data_unit_type, e)),
    {
        let system_type = match self.system_type {
            Some(v) => v,
            None => {
                return Err(missing_field_error("system_type", "System type is required"));
            },
        };
        let system_address = match self.system_address {
            Some(v) => v,
            None => {
                return Err(missing_field_error("system_address", "System address is required"));
            },
        };
        let component_type = match self.component_type {
            Some(v) => v,
            None => {
                return Err(missing_field_error("component_type", "Component type is required"));
            },
        };
        let component_address = match self.component_address {
            Some(v) => v,
            None => {
                return Err(missing_field_error("component_address", "Component address is required"));
            },
        };
        let component_state = match self.component_state {
            Some(v) => v,
            None => {
                return Err(missing_field_error("component_state", "Component state is required"));
            },
        };
        let timestamp = match self.timestamp {
            Some(v) => v,
            None => {
                return Err(missing_field_error("timestamp", "Timestamp is required"));
            },
        };
        let info = ComponentStatus::new(system_type, system_address, component_type, component_address, component_state, self.component_description, timestamp);
        match self.data_unit_type {
            DataUnitType::UploadComponentStatus => Ok(GenericDataUnit::UploadComponentStatus(upstream::UploadComponentStatus::new(info, timestamp))),
            _ => Err(wrong_type_error(self.data_unit_type, "Incompatible data unit type for component status")),
        }
    }
}

/// Builder of an upload of an analog value.
pub struct AnalogValueBuilder {
    /// the data unit type to build
    pub data_unit_type: DataUnitType,
    /// system type, once set
    pub system_type: Option<SystemType>,
    /// system address, once set
    pub system_address: Option<u8>,
    /// component type, once set
    pub component_type: Option<ComponentType>,
    /// component address, once set
    pub component_address: Option<u32>,
    /// analog type, once set
    pub analog_type: Option<AnalogType>,
    /// analog value, once set
    pub analog_value: Option<i16>,
    /// time label, once set
    pub timestamp: Option<Timestamp>,
}

impl AnalogValueBuilder {
    /// A builder with nothing set.
    pub open spec fn spec_new(data_unit_type: DataUnitType) -> Self {
        AnalogValueBuilder { data_unit_type, system_type: None, system_address: None, component_type: None, component_address: None, analog_type: None, analog_value: None, timestamp: None }
    }

    /// Whether every field is set.
    pub open spec fn complete(self) -> bool {
        self.system_type is Some && self.system_address is Some && self.component_type is Some && self.component_address is Some && self.analog_type is Some && self.analog_value is Some && self.timestamp is Some
    }

    /// The information object the set fields make.
    pub open spec fn spec_info(self) -> AnalogValue {
        AnalogValue { system_type: self.system_type->0, system_address: self.system_address->0, component_type: self.component_type->0, component_address: self.component_address->0, analog_type: self.analog_type->0, analog_value: self.analog_value->0, timestamp: self.timestamp->0 }
    }

    fn new(data_unit_type: DataUnitType) -> (r: Self)
        ensures
            r == Self::spec_new(data_unit_type),
    {
        Self { data_unit_type, system_type: None, system_address: None, component_type: None, component_address: None, analog_type: None, analog_value: None, timestamp: None }
    }

    /// Sets the system type.
    pub fn system_type(self, system_type: SystemType) -> (r: Self)
        ensures
            r == (AnalogValueBuilder { system_type: Some(system_type), ..self }),
    {
        let mut s = self;
        s.system_type = Some(system_type);
        s
    }

    /// Sets the system address.
    pub fn system_address(self, address: u8) -> (r: Self)
        ensures
            r == (AnalogValueBuilder { system_address: Some(address), ..self }),
    {
        let mut s = self;
        s.system_address = Some(address);
        s
    }

    /// Sets the component type.
    pub fn component_type(self, component_type: ComponentType) -> (r: Self)
        ensures
            r == (AnalogValueBuilder { component_type: Some(component_type), ..self }),
    {
        let mut s = self;
        s.component_type = Some(component_type);
        s
    }

    /// Sets the component address.
    pub fn component_address(self, address: u32) -> (r: Self)
        ensures
            r == (AnalogValueBuilder { component_address: Some(address), ..self }),
    {
        let mut s = self;
        s.component_address = Some(address);
        s
    }

    /// Sets the analog type.
    pub fn analog_type(self, analog_type: AnalogType) -> (r: Self)
        ensures
            r == (AnalogValueBuilder { analog_type: Some(analog_type), ..self }),
    {
        let mut s = self;
        s.analog_type = Some(analog_type);
        s
    }

    /// Sets the analog value.
    pub fn analog_value(self, value: i16) -> (r: Self)
        ensures
            r == (AnalogValueBuilder { analog_value: Some(value), ..self }),
    {
        let mut s = self;
        s.analog_value = Some(value);
        s
    }

    /// Sets the timestamp.
    pub fn timestamp(self, timestamp: Timestamp) -> (r: Self)
        ensures
            r == (AnalogValueBuilder { timestamp: Some(timestamp), ..self }),
    {
        let mut s = self;
        s.timestamp = Some(timestamp);
        s
    }

    /// The upload of the analog value made of the set fields, stamped with
    /// the set time label; refuses a missing field (the first in the order
    /// of the setters) and a data unit type other than UploadAnalogValue.
    pub fn build(self) -> (r: ParseResult<GenericDataUnit>)
        ensures
            r is Ok <==> (self.complete() && self.data_unit_type == DataUnitType::UploadAnalogValue),
            r matches Ok(g) ==> g == GenericDataUnit::UploadAnalogValue(upstream::UploadAnalogValue {
                object_count: 1,
                analog_value: self.spec_info(),
                timestamp: self.timestamp->0,
            }),
            self.system_type is None ==> (r matches Err(e) && missing_field_error_of("system_type"@, e)),
            self.system_type is Some && self.system_address is None ==> (r matches Err(e) && missing_field_error_of("system_address"@, e)),
            self.system_type is Some && self.system_address is Some && self.component_type is None ==> (r matches Err(e) && missing_field_error_of("component_type"@, e)),
            self.system_type is Some && self.system_address is Some && self.component_type is Some && self.component_address is None ==> (r matches Err(e) && missing_field_error_of("component_address"@, e)),
            self.system_type is Some && self.system_address is Some && self.component_type is Some && self.component_address is Some && self.analog_type is None ==> (r matches Err(e) && missing_field_error_of("analog_type"@, e)),
            self.system_type is Some && self.system_address is Some && self.component_type is Some && self.component_address is Some && self.analog_type is Some && self.analog_value is None ==> (r matches Err(e) && missing_field_error_of("analog_value"@, e)),
            self.system_type is Some && self.system_address is Some && self.component_type is Some && self.component_address is Some && self.analog_type is Some && self.analog_value is Some && self.timestamp is None ==> (r matches Err(e) && missing_field_error_of("timestamp"@, e)),
            self.complete() && self.data_unit_type != DataUnitType::UploadAnalogValue ==> (r matches Err(e)
                && wrong_type_error_of(self.data_unit_type, e)),
    {
        let system_type = match self.system_type {
            Some(v) => v,
            None => {
                return Err(missing_field_error("system_type", "System type is required"));
            },
        };
        let system_address = match self.system_address {
            Some(v) => v,
            None => {
                return Err(missing_field_error("system_address", "System address is required"));
            },
        };
        let component_type = match self.component_type {
            Some(v) => v,
            None => {
                return Err(missing_field_error("component_type", "Component type is required"));
            },
        };
        let component_address = match self.component_address {
            Some(v) => v,
            None => {
                return Err(missing_field_error("component_address", "Component address is required"));
            },
        };
        let analog_type = match self.analog_type {
            Some(v) => v,
            None => {
                return Err(missing_field_error("analog_type", "Analog type is required"));
            },
        };
        let analog_value = match self.analog_value {
            Some(v) => v,
            None => {
                return Err(missing_field_error("analog_value", "Analog value is required"));
            },
        };
        let timestamp = match self.timestamp {
            Some(v) => v,
            None => {
                return Err(missing_field_error("timestamp", "Timestamp is required"));
            },
        };
        let info = AnalogValue::new(system_type, system_address, component_type, component_address, analog_type, analog_value, timestamp);
        match self.data_unit_type {
            DataUnitType::UploadAnalogValue => Ok(GenericDataUnit::UploadAnalogValue(upstream::UploadAnalogValue::new(info, timestamp))),
            _ => Err(wrong_type_error(self.data_unit_type, "Incompatible data unit type for analog value")),
        }
    }
}

/// Builder of this kind of object; building always fails.
pub struct OperationInfoBuilder {
    /// the data unit type to build
    pub data_unit_type: DataUnitType,
}

impl OperationInfoBuilder {
    pub open spec fn spec_new(data_unit_type: DataUnitType) -> Self {
        OperationInfoBuilder { data_unit_type }
    }

    fn new(data_unit_type: DataUnitType) -> (r: Self)
        ensures
            r == Self::spec_new(data_unit_type),
    {
        Self { data_unit_type }
    }

    /// Always an `InvalidValue` error naming `operation_info`.
    pub fn build(self) -> (r: ParseResult<GenericDataUnit>)
        ensures
            r matches Err(ParseError::InvalidValue { field, value, .. }) && field@ == "operation_info"@
                && value@ == "builder"@,
    {
        Err(
            ParseError::InvalidValue {
                field: "operation_info".to_owned(),
                value: "builder".to_owned(),
                reason: "OperationInfo builder is not supported".to_owned(),
            },
        )
    }
}

/// Builder of this kind of object; building always fails.
pub struct VersionInfoBuilder {
    /// the data unit type to build
    pub data_unit_type: DataUnitType,
}

impl VersionInfoBuilder {
    pub open spec fn spec_new(data_unit_type: DataUnitType) -> Self {
        VersionInfoBuilder { data_unit_type }
    }

    fn new(data_unit_type: DataUnitType) -> (r: Self)
        ensures
            r == Self::spec_new(data_unit_type),
    {
        Self { data_unit_type }
    }

    /// Always an `InvalidValue` error naming `version_info`.
    pub fn build(self) -> (r: ParseResult<GenericDataUnit>)
        ensures
            r matches Err(ParseError::InvalidValue { field, value, .. }) && field@ == "version_info"@
                && value@ == "builder"@,
    {
        Err(
            ParseError::InvalidValue {
                field: "version_info".to_owned(),
                value: "builder".to_owned(),
                reason: "VersionInfo builder is not supported".to_owned(),
            },
        )
    }
}

/// Builder of this kind of object; building always fails.
pub struct ConfigInfoBuilder {
    /// the data unit type to build
    pub data_unit_type: DataUnitType,
}

impl ConfigInfoBuilder {
    pub open spec fn spec_new(data_unit_type: DataUnitType) -> Self {
        ConfigInfoBuilder { data_unit_type }
    }

    fn new(data_unit_type: DataUnitType) -> (r: Self)
        ensures
            r == Self::spec_new(data_unit_type),
    {
        Self { data_unit_type }
    }

    /// Always an `InvalidValue` error naming `config_info`.
    pub fn build(self) -> (r: ParseResult<GenericDataUnit>)
        ensures
            r matches Err(ParseError::InvalidValue { field, value, .. }) && field@ == "config_info"@
                && value@ == "builder"@,
    {
        Err(
            ParseError::InvalidValue {
                field: "config_info".to_owned(),
                value: "builder".to_owned(),
                reason: "ConfigInfo builder is not supported".to_owned(),
            },
        )
    }
}

/// Builder of this kind of object; building always fails.
pub struct TimeInfoBuilder {
    /// the data unit type to build
    pub data_unit_type: DataUnitType,
}

impl TimeInfoBuilder {
    pub open spec fn spec_new(data_unit_type: DataUnitType) -> Self {
        TimeInfoBuilder { data_unit_type }
    }

    fn new(data_unit_type: DataUnitType) -> (r: Self)
        ensures
            r == Self::spec_new(data_unit_type),
    {
        Self { data_unit_type }
    }

    /// Always an `InvalidValue` error naming `time_info`.
    pub fn build(self) -> (r: ParseResult<GenericDataUnit>)
        ensures
            r matches Err(ParseError::InvalidValue { field, value, .. }) && field@ == "time_info"@
                && value@ == "builder"@,
    {
        Err(
            ParseError::InvalidValue {
                field: "time_info".to_owned(),
                value: "builder".to_owned(),
                reason: "TimeInfo builder is not supported".to_owned(),
            },
        )
    }
}

} // verus!
