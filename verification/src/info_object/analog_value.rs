//! Analog value of a building fire facility component: system type and
//! address, component type and address, analog type, a signed 16-bit value
//! and a time label, 16 bytes in all.
use super::InfoObject;
use crate::error::{EncodeResult, ParseError, ParseResult};
use crate::frame::timestamp::{
    bytes_are_valid_timestamp, timestamp_error_of, timestamp_of_bytes, Timestamp,
};
use crate::protocol::{ComponentType, SystemType};
use crate::wire::{
    append_bytes, le16_signed, le16_signed_bytes, le32, le32_bytes, lemma_le16_signed_roundtrip,
    lemma_le32_roundtrip, i16_from_le, i16_to_le, u32_from_le, u32_to_le,
};
use vstd::prelude::*;

verus! {

/// Kind of an analog value (codes 0 to 12).
#[derive(Debug, Clone, Copy, PartialEq, Eq, Structural)]
pub enum AnalogType {
    /// 0: unused
    Unused,
    /// 1: event count
    EventCount,
    /// 2: height, 0.01 m
    Height,
    /// 3: temperature, 0.1 °C
    Temperature,
    /// 4: pressure, 0.1 MPa
    PressureMPa,
    /// 5: pressure, 0.1 kPa
    PressureKPa,
    /// 6: gas concentration, 0.1 %LEL
    GasConcentration,
    /// 7: time, seconds
    Time,
    /// 8: voltage, 0.1 V
    Voltage,
    /// 9: current, 0.1 A
    Current,
    /// 10: flow rate, 0.1 L/s
    FlowRate,
    /// 11: air volume, 0.1 m³/min
    AirVolume,
    /// 12: wind speed, m/s
    WindSpeed,
}

impl AnalogType {
    /// The analog type with code `v`, for codes 0 to 12.
    pub open spec fn spec_from_u8(v: u8) -> Option<AnalogType> {
        if v == 0 {
            Some(AnalogType::Unused)
        } else if v == 1 {
            Some(AnalogType::EventCount)
        } else if v == 2 {
            Some(AnalogType::Height)
        } else if v == 3 {
            Some(AnalogType::Temperature)
        } else if v == 4 {
            Some(AnalogType::PressureMPa)
        } else if v == 5 {
            Some(AnalogType::PressureKPa)
        } else if v == 6 {
            Some(AnalogType::GasConcentration)
        } else if v == 7 {
            Some(AnalogType::Time)
        } else if v == 8 {
            Some(AnalogType::Voltage)
        } else if v == 9 {
            Some(AnalogType::Current)
        } else if v == 10 {
            Some(AnalogType::FlowRate)
        } else if v == 11 {
            Some(AnalogType::AirVolume)
        } else if v == 12 {
            Some(AnalogType::WindSpeed)
        } else {
            None
        }
    }

    /// The code of the analog type.
    pub open spec fn spec_to_u8(self) -> u8 {
        match self {
            AnalogType::Unused => 0,
            AnalogType::EventCount => 1,
            AnalogType::Height => 2,
            AnalogType::Temperature => 3,
            AnalogType::PressureMPa => 4,
            AnalogType::PressureKPa => 5,
            AnalogType::GasConcentration => 6,
            AnalogType::Time => 7,
            AnalogType::Voltage => 8,
            AnalogType::Current => 9,
            AnalogType::FlowRate => 10,
            AnalogType::AirVolume => 11,
            AnalogType::WindSpeed => 12,
        }
    }

    /// The analog type with code `value`; `None` above 12.
    pub fn from_u8(value: u8) -> (r: Option<Self>)
        ensures
            r == AnalogType::spec_from_u8(value),
    {
        match value {
            0 => Some(AnalogType::Unused),
            1 => Some(AnalogType::EventCount),
            2 => Some(AnalogType::Height),
            3 => Some(AnalogType::Temperature),
            4 => Some(AnalogType::PressureMPa),
            5 => Some(AnalogType::PressureKPa),
            6 => Some(AnalogType::GasConcentration),
            7 => Some(AnalogType::Time),
            8 => Some(AnalogType::Voltage),
            9 => Some(AnalogType::Current),
            10 => Some(AnalogType::FlowRate),
            11 => Some(AnalogType::AirVolume),
            12 => Some(AnalogType::WindSpeed),
            _ => None,
        }
    }

    /// The code of the analog type.
    pub fn to_u8(&self) -> (r: u8)
        ensures
            r == self.spec_to_u8(),
    {
        match self {
            AnalogType::Unused => 0,
            AnalogType::EventCount => 1,
            AnalogType::Height => 2,
            AnalogType::Temperature => 3,
            AnalogType::PressureMPa => 4,
            AnalogType::PressureKPa => 5,
            AnalogType::GasConcentration => 6,
            AnalogType::Time => 7,
            AnalogType::Voltage => 8,
            AnalogType::Current => 9,
            AnalogType::FlowRate => 10,
            AnalogType::AirVolume => 11,
            AnalogType::WindSpeed => 12,
        }
    }
}

/// Decoding the code of an analog type gives the analog type, and a code
/// decodes exactly when it is at most 12.
pub proof fn law_analog_type_code_roundtrip(t: AnalogType, v: u8)
    ensures
        AnalogType::spec_from_u8(t.spec_to_u8()) == Some(t),
        AnalogType::spec_from_u8(v) is Some <==> v <= 12,
        AnalogType::spec_from_u8(v) matches Some(u) ==> u.spec_to_u8() == v,
{
}

/// Analog value of a building fire facility component.
#[derive(Debug, Clone, Copy, PartialEq, Eq, Structural)]
pub struct AnalogValue {
    /// system type code
    pub system_type: SystemType,
    /// system address
    pub system_address: u8,
    /// component type code
    pub component_type: ComponentType,
    /// component address (little-endian on the wire)
    pub component_address: u32,
    /// kind of value
    pub analog_type: AnalogType,
    /// signed value (little-endian on the wire)
    pub analog_value: i16,
    /// time label
    pub timestamp: Timestamp,
}

/// Whether the first 16 bytes of `b` hold an analog value: a known analog
/// type code and a valid time label.
pub open spec fn analog_value_bytes_ok(b: Seq<u8>) -> bool {
    &&& b.len() >= 16
    &&& AnalogType::spec_from_u8(b[7]) is Some
    &&& bytes_are_valid_timestamp(b.subrange(10, 16))
}

/// Analog value read from the first 16 bytes of `b`.
pub open spec fn analog_value_of_bytes(b: Seq<u8>) -> AnalogValue {
    AnalogValue {
        system_type: SystemType::spec_from_u8(b[0]),
        system_address: b[1],
        component_type: ComponentType::spec_from_u8(b[2]),
        component_address: le32(b[3], b[4], b[5], b[6]),
        analog_type: AnalogType::spec_from_u8(b[7]).unwrap(),
        analog_value: le16_signed(b[8], b[9]),
        timestamp: timestamp_of_bytes(b.subrange(10, 16)),
    }
}

/// The outcome of reading an analog value from `b`.
pub open spec fn analog_value_parse_ok(b: Seq<u8>, r: ParseResult<AnalogValue>) -> bool {
    &&& r is Ok <==> analog_value_bytes_ok(b)
    &&& r matches Ok(a) ==> a == analog_value_of_bytes(b)
    &&& b.len() < 16 ==> (r matches Err(ParseError::TooShort { actual, expected }) && actual
        == b.len() && expected == 16)
    &&& b.len() >= 16 && AnalogType::spec_from_u8(b[7]) is None ==> (r matches Err(
        ParseError::InvalidAnalogType(v),
    ) && v == b[7])
    &&& b.len() >= 16 && AnalogType::spec_from_u8(b[7]) is Some && !bytes_are_valid_timestamp(
        b.subrange(10, 16),
    ) ==> (r matches Err(e) && timestamp_error_of(b.subrange(10, 16), e))
}

impl AnalogValue {
    /// The 16 bytes of the object.
    pub open spec fn spec_bytes(self) -> Seq<u8> {
        seq![self.system_type.spec_to_u8(), self.system_address, self.component_type.spec_to_u8()]
            + le32_bytes(self.component_address) + seq![self.analog_type.spec_to_u8()]
            + le16_signed_bytes(self.analog_value) + self.timestamp.spec_bytes()
    }

    /// An analog value whose bytes read back as itself.
    pub open spec fn wire_representable(self) -> bool {
        &&& self.system_type.well_formed()
        &&& self.component_type.well_formed()
        &&& self.timestamp.spec_is_valid()
    }

    /// Creates an analog value.
    pub fn new(
        system_type: SystemType,
        system_address: u8,
        component_type: ComponentType,
        component_address: u32,
        analog_type: AnalogType,
        analog_value: i16,
        timestamp: Timestamp,
    ) -> (r: Self)
        ensures
            r == (AnalogValue {
                system_type,
                system_address,
                component_type,
                component_address,
                analog_type,
                analog_value,
                timestamp,
            }),
    {
        Self {
            system_type,
            system_address,
            component_type,
            component_address,
            analog_type,
            analog_value,
            timestamp,
        }
    }
}

impl InfoObject for AnalogValue {
    /// Type code 3.
    fn object_type(&self) -> (r: u8)
        ensures
            r == 3,
    {
        3
    }

    fn description(&self) -> (r: Option<&str>)
        ensures
            r matches Some(t) && t@ == "建筑消防设施部件模拟量值"@,
    {
        Some("建筑消防设施部件模拟量值")
    }

    fn encode(&self) -> (r: EncodeResult<Vec<u8>>)
        ensures
            r matches Ok(v) && v@ == self.spec_bytes(),
    {
        let mut buf: Vec<u8> = Vec::with_capacity(16);
        buf.push(self.system_type.to_u8());
        buf.push(self.system_address);
        buf.push(self.component_type.to_u8());
        let addr = u32_to_le(self.component_address);
        append_bytes(&mut buf, &addr);
        buf.push(self.analog_type.to_u8());
        let val = i16_to_le(self.analog_value);
        append_bytes(&mut buf, &val);
        let ts = self.timestamp.to_bytes();
        append_bytes(&mut buf, &ts);
        proof {
            assert(buf@ =~= self.spec_bytes());
        }
        Ok(buf)
    }

    fn parse(data: &[u8]) -> (r: ParseResult<Self>)
        ensures
            analog_value_parse_ok(data@, r),
    {
        if data.len() < 16 {
            return Err(ParseError::TooShort { actual: data.len(), expected: 16 });
        }
        let system_type = SystemType::from_u8(data[0]);
        let system_address = data[1];
        let component_type = ComponentType::from_u8(data[2]);
        let component_address = u32_from_le(data[3], data[4], data[5], data[6]);
        let analog_type = match AnalogType::from_u8(data[7]) {
            Some(t) => t,
            None => {
                return Err(ParseError::InvalidAnalogType(data[7]));
            },
        };
        let analog_value = i16_from_le(data[8], data[9]);
        let timestamp = match Timestamp::from_bytes(&data[10..16]) {
            Ok(t) => t,
            Err(e) => {
                return Err(e);
            },
        };
        Ok(
            AnalogValue::new(
                system_type,
                system_address,
                component_type,
                component_address,
                analog_type,
                analog_value,
                timestamp,
            ),
        )
    }

    fn timestamp(&self) -> (r: Option<&Timestamp>)
        ensures
            r == Some(&self.timestamp),
    {
        Some(&self.timestamp)
    }
}

/// Reading back the bytes of a representable analog value gives the value.
pub proof fn law_analog_value_roundtrip(a: AnalogValue)
    requires
        a.wire_representable(),
    ensures
        a.spec_bytes().len() == 16,
        analog_value_bytes_ok(a.spec_bytes()),
        analog_value_of_bytes(a.spec_bytes()) == a,
{
    let b = a.spec_bytes();
    lemma_le32_roundtrip(a.component_address);
    lemma_le16_signed_roundtrip(a.analog_value);
    assert(b.subrange(10, 16) =~= a.timestamp.spec_bytes());
    assert(timestamp_of_bytes(a.timestamp.spec_bytes()) == a.timestamp);
}

/// The analog type code table: 0 unused, 1 event count, 2 height,
/// 3 temperature, 4 pressure in 0.1 MPa, 5 pressure in kPa, 6 gas
/// concentration, 7 time, 8 voltage, 9 current, 10 flow rate, 11 air volume,
/// 12 wind speed, each written with its code; codes above 12 name no type.
pub proof fn law_analog_type_table(v: u8)
    ensures
        AnalogType::spec_from_u8(0) == Some(AnalogType::Unused),
        AnalogType::spec_from_u8(1) == Some(AnalogType::EventCount),
        AnalogType::spec_from_u8(2) == Some(AnalogType::Height),
        AnalogType::spec_from_u8(3) == Some(AnalogType::Temperature),
        AnalogType::spec_from_u8(4) == Some(AnalogType::PressureMPa),
        AnalogType::spec_from_u8(5) == Some(AnalogType::PressureKPa),
        AnalogType::spec_from_u8(6) == Some(AnalogType::GasConcentration),
        AnalogType::spec_from_u8(7) == Some(AnalogType::Time),
        AnalogType::spec_from_u8(8) == Some(AnalogType::Voltage),
        AnalogType::spec_from_u8(9) == Some(AnalogType::Current),
        AnalogType::spec_from_u8(10) == Some(AnalogType::FlowRate),
        AnalogType::spec_from_u8(11) == Some(AnalogType::AirVolume),
        AnalogType::spec_from_u8(12) == Some(AnalogType::WindSpeed),
        AnalogType::Unused.spec_to_u8() == 0,
        AnalogType::EventCount.spec_to_u8() == 1,
        AnalogType::Height.spec_to_u8() == 2,
        AnalogType::Temperature.spec_to_u8() == 3,
        AnalogType::PressureMPa.spec_to_u8() == 4,
        AnalogType::PressureKPa.spec_to_u8() == 5,
        AnalogType::GasConcentration.spec_to_u8() == 6,
        AnalogType::Time.spec_to_u8() == 7,
        AnalogType::Voltage.spec_to_u8() == 8,
        AnalogType::Current.spec_to_u8() == 9,
        AnalogType::FlowRate.spec_to_u8() == 10,
        AnalogType::AirVolume.spec_to_u8() == 11,
        AnalogType::WindSpeed.spec_to_u8() == 12,
        v > 12 ==> AnalogType::spec_from_u8(v) is None,
{
}

} // verus!
