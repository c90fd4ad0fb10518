//! Configurations: of a building fire facility system (system type and
//! address, a length byte and up to 255 description bytes, time label), of
//! a component (system type and address, component type and address, a
//! 31-byte description, time label; 44 bytes) and of the user information
//! transmission device (a length byte, up to 255 description bytes, time
//! label).
use super::InfoObject;
use crate::error::{EncodeResult, ParseError, ParseResult};
use crate::frame::timestamp::{
    bytes_are_valid_timestamp, timestamp_error_of, timestamp_of_bytes, Timestamp,
};
use crate::info_object::component_status::{description_bytes, description_field, description_text_of};
use crate::protocol::{ComponentType, SystemType};
use crate::text::{decimal_string, decimal_text, trim_nul_end, utf8_str};
use crate::wire::{append_bytes, le32, le32_bytes, lemma_le32_roundtrip, u32_from_le, u32_to_le};
use vstd::prelude::*;
use vstd::string::StringSliceAdditionalSpecFns;

verus! {

/// Configuration of a building fire facility system.
#[derive(Debug, Clone, PartialEq, Eq)]
pub struct FireSystemConfig {
    /// system type code
    pub system_type: SystemType,
    /// system address
    pub system_address: u8,
    /// configuration description bytes (at most 255)
    pub config_description: Vec<u8>,
    /// time label
    pub timestamp: Timestamp,
}

/// Whether `b` begins with a system configuration: the length byte, that
/// many description bytes and a valid time label.
pub open spec fn fire_system_config_bytes_ok(b: Seq<u8>) -> bool {
    let n = b[2] as int;
    &&& b.len() >= 9
    &&& b.len() >= 9 + n
    &&& bytes_are_valid_timestamp(b.subrange(3 + n, 9 + n))
}

/// The outcome of reading a system configuration from `b`.
pub open spec fn fire_system_config_parse_ok(b: Seq<u8>, r: ParseResult<FireSystemConfig>) -> bool {
    let n = b[2] as int;
    &&& r is Ok <==> fire_system_config_bytes_ok(b)
    &&& r matches Ok(c) ==> {
        &&& c.system_type == SystemType::spec_from_u8(b[0])
        &&& c.system_address == b[1]
        &&& c.config_description@ == b.subrange(3, 3 + n)
        &&& c.timestamp == timestamp_of_bytes(b.subrange(3 + n, 9 + n))
    }
    &&& b.len() < 9 ==> (r matches Err(ParseError::TooShort { actual, expected }) && actual
        == b.len() && expected == 9)
    &&& b.len() >= 9 && b.len() < 9 + n ==> (r matches Err(ParseError::TooShort { actual, expected })
        && actual == b.len() && expected == 9 + n)
    &&& b.len() >= 9 + n && !bytes_are_valid_timestamp(b.subrange(3 + n, 9 + n)) ==> (r matches Err(
        e,
    ) && timestamp_error_of(b.subrange(3 + n, 9 + n), e))
}

impl FireSystemConfig {
    /// The bytes of the object.
    pub open spec fn spec_bytes(self) -> Seq<u8> {
        seq![
            self.system_type.spec_to_u8(),
            self.system_address,
            (self.config_description@.len() % 256) as u8,
        ] + self.config_description@ + self.timestamp.spec_bytes()
    }

    /// A system configuration whose bytes read back as itself.
    pub open spec fn wire_representable(self) -> bool {
        &&& self.system_type.well_formed()
        &&& self.config_description@.len() <= 255
        &&& self.timestamp.spec_is_valid()
    }

    /// Creates a system configuration; refuses a description longer than
    /// 255 bytes.
    pub fn new(
        system_type: SystemType,
        system_address: u8,
        config_description: Vec<u8>,
        timestamp: Timestamp,
    ) -> (r: Result<Self, ParseError>)
        ensures
            r is Ok <==> config_description@.len() <= 255,
            r matches Ok(c) ==> c == (FireSystemConfig {
                system_type,
                system_address,
                config_description,
                timestamp,
            }),
            r matches Err(e) ==> e matches ParseError::InvalidValue { field, value, .. } && field@
                == "config_description_length"@ && value@ == decimal_text(
                config_description@.len() as nat,
            ),
    {
        if config_description.len() > 255 {
            return Err(
                ParseError::InvalidValue {
                    field: "config_description_length".to_owned(),
                    value: decimal_string(config_description.len() as u64),
                    reason: String::new(),
                },
            );
        }
        Ok(Self { system_type, system_address, config_description, timestamp })
    }

    /// Creates a system configuration from the UTF-8 bytes of `description_text`.
    pub fn with_description_text(
        system_type: SystemType,
        system_address: u8,
        description_text: &str,
        timestamp: Timestamp,
    ) -> (r: Result<Self, ParseError>)
        ensures
            r is Ok <==> description_text.spec_bytes().len() <= 255,
            r matches Ok(c) ==> c.system_type == system_type && c.system_address == system_address
                && c.config_description@ == description_text.spec_bytes() && c.timestamp
                == timestamp,
            r matches Err(e) ==> e matches ParseError::InvalidValue { .. },
    {
        let config_description = vstd::slice::slice_to_vec(description_text.as_bytes());
        Self::new(system_type, system_address, config_description, timestamp)
    }

    /// The description read as UTF-8.
    pub fn description_text(&self) -> (r: Result<&str, std::str::Utf8Error>)
        ensures
            r is Ok <==> vstd::utf8::valid_utf8(self.config_description@),
            r matches Ok(t) ==> t@ == vstd::utf8::decode_utf8(self.config_description@),
    {
        utf8_str(self.config_description.as_slice())
    }
}

impl InfoObject for FireSystemConfig {
    /// Type code 6.
    fn object_type(&self) -> (r: u8)
        ensures
            r == 6,
    {
        6
    }

    fn description(&self) -> (r: Option<&str>)
        ensures
            r matches Some(t) && t@ == "建筑消防设施系统配置情况"@,
    {
        Some("建筑消防设施系统配置情况")
    }

    /// The bytes; the length byte holds the description length modulo 256.
    fn encode(&self) -> (r: EncodeResult<Vec<u8>>)
        ensures
            r matches Ok(v) && v@ == self.spec_bytes(),
    {
        let mut buf: Vec<u8> = Vec::new();
        buf.push(self.system_type.to_u8());
        buf.push(self.system_address);
        buf.push((self.config_description.len() % 256) as u8);
        append_bytes(&mut buf, self.config_description.as_slice());
        let ts = self.timestamp.to_bytes();
        append_bytes(&mut buf, &ts);
        proof {
            assert(buf@ =~= self.spec_bytes());
        }
        Ok(buf)
    }

    fn parse(data: &[u8]) -> (r: ParseResult<Self>)
        ensures
            fire_system_config_parse_ok(data@, r),
    {
        if data.len() < 9 {
            return Err(ParseError::TooShort { actual: data.len(), expected: 9 });
        }
        let system_type = SystemType::from_u8(data[0]);
        let system_address = data[1];
        let n = data[2] as usize;
        if data.len() < 9 + n {
            return Err(ParseError::TooShort { actual: data.len(), expected: 9 + n });
        }
        let config_description = vstd::slice::slice_to_vec(&data[3..3 + n]);
        let timestamp = match Timestamp::from_bytes(&data[3 + n..9 + n]) {
            Ok(t) => t,
            Err(e) => {
                return Err(e);
            },
        };
        match Self::new(system_type, system_address, config_description, timestamp) {
            Ok(c) => Ok(c),
            Err(_) => Err(ParseError::InvalidDataLength { actual: n, expected: 255 }),
        }
    }

    fn timestamp(&self) -> (r: Option<&Timestamp>)
        ensures
            r == Some(&self.timestamp),
    {
        Some(&self.timestamp)
    }
}

/// Configuration of a building fire facility component.
#[derive(Debug, Clone, Copy, PartialEq, Eq)]
pub struct ComponentConfig {
    /// system type code
    pub system_type: SystemType,
    /// system address
    pub system_address: u8,
    /// component type code
    pub component_type: ComponentType,
    /// component address (little-endian on the wire)
    pub component_address: u32,
    /// description text bytes, zero padded
    pub component_description: [u8; 31],
    /// time label
    pub timestamp: Timestamp,
}

/// Whether `c` holds the component configuration written in the first 44
/// bytes of `b`.
pub open spec fn component_config_matches(c: ComponentConfig, b: Seq<u8>) -> bool {
    &&& c.system_type == SystemType::spec_from_u8(b[0])
    &&& c.system_address == b[1]
    &&& c.component_type == ComponentType::spec_from_u8(b[2])
    &&& c.component_address == le32(b[3], b[4], b[5], b[6])
    &&& c.component_description@ == b.subrange(7, 38)
    &&& c.timestamp == timestamp_of_bytes(b.subrange(38, 44))
}

/// Whether the first 44 bytes of `b` hold a component configuration with a valid time label.
pub open spec fn component_config_bytes_ok(b: Seq<u8>) -> bool {
    b.len() >= 44 && bytes_are_valid_timestamp(b.subrange(38, 44))
}

/// The outcome of reading a component configuration from `b`.
pub open spec fn component_config_parse_ok(b: Seq<u8>, r: ParseResult<ComponentConfig>) -> bool {
    &&& r is Ok <==> (b.len() >= 44 && bytes_are_valid_timestamp(b.subrange(38, 44)))
    &&& r matches Ok(c) ==> component_config_matches(c, b)
    &&& b.len() < 44 ==> (r matches Err(ParseError::TooShort { actual, expected }) && actual
        == b.len() && expected == 44)
    &&& b.len() >= 44 && !bytes_are_valid_timestamp(b.subrange(38, 44)) ==> (r matches Err(e)
        && timestamp_error_of(b.subrange(38, 44), e))
}

impl ComponentConfig {
    /// The 44 bytes of the object.
    pub open spec fn spec_bytes(self) -> Seq<u8> {
        seq![self.system_type.spec_to_u8(), self.system_address, self.component_type.spec_to_u8()]
            + le32_bytes(self.component_address) + self.component_description@
            + self.timestamp.spec_bytes()
    }

    /// A component configuration whose bytes read back as itself.
    pub open spec fn wire_representable(self) -> bool {
        &&& self.system_type.well_formed()
        &&& self.component_type.well_formed()
        &&& self.timestamp.spec_is_valid()
    }

    /// Creates a component configuration.
    pub fn new(
        system_type: SystemType,
        system_address: u8,
        component_type: ComponentType,
        component_address: u32,
        component_description: [u8; 31],
        timestamp: Timestamp,
    ) -> (r: Self)
        ensures
            r == (ComponentConfig {
                system_type,
                system_address,
                component_type,
                component_address,
                component_description,
                timestamp,
            }),
    {
        Self {
            system_type,
            system_address,
            component_type,
            component_address,
            component_description,
            timestamp,
        }
    }

    /// Replaces the description with the UTF-8 bytes of `text`, cut to 31
    /// bytes and padded with zeros.
    pub fn with_description_text(self, text: &str) -> (r: Self)
        ensures
            r.component_description@ == description_field(text.spec_bytes()),
            r == (ComponentConfig { component_description: r.component_description, ..self }),
    {
        let mut s = self;
        s.component_description = description_bytes(text.as_bytes());
        s
    }

    /// The description as text: the field read as UTF-8 without its trailing
    /// NUL characters.
    pub fn description_text(&self) -> (r: Result<&str, std::str::Utf8Error>)
        ensures
            r matches Ok(t) ==> description_text_of(self.component_description@) == Some(t@),
            r is Err <==> description_text_of(self.component_description@) is None,
    {
        match utf8_str(&self.component_description) {
            Ok(t) => Ok(trim_nul_end(t)),
            Err(e) => Err(e),
        }
    }
}

impl InfoObject for ComponentConfig {
    /// Type code 7.
    fn object_type(&self) -> (r: u8)
        ensures
            r == 7,
    {
        7
    }

    fn description(&self) -> (r: Option<&str>)
        ensures
            r matches Some(t) && t@ == "建筑消防设施系统部件配置情况"@,
    {
        Some("建筑消防设施系统部件配置情况")
    }

    fn encode(&self) -> (r: EncodeResult<Vec<u8>>)
        ensures
            r matches Ok(v) && v@ == self.spec_bytes(),
    {
        let mut buf: Vec<u8> = Vec::with_capacity(44);
        buf.push(self.system_type.to_u8());
        buf.push(self.system_address);
        buf.push(self.component_type.to_u8());
        let addr = u32_to_le(self.component_address);
        append_bytes(&mut buf, &addr);
        append_bytes(&mut buf, &self.component_description);
        let ts = self.timestamp.to_bytes();
        append_bytes(&mut buf, &ts);
        proof {
            assert(buf@ =~= self.spec_bytes());
        }
        Ok(buf)
    }

    fn parse(data: &[u8]) -> (r: ParseResult<Self>)
        ensures
            component_config_parse_ok(data@, r),
    {
        if data.len() < 44 {
            return Err(ParseError::TooShort { actual: data.len(), expected: 44 });
        }
        let system_type = SystemType::from_u8(data[0]);
        let component_type = ComponentType::from_u8(data[2]);
        let component_address = u32_from_le(data[3], data[4], data[5], data[6]);
        let component_description = description_bytes(&data[7..38]);
        proof {
            assert(description_field(data@.subrange(7, 38)) =~= data@.subrange(7, 38));
        }
        let timestamp = match Timestamp::from_bytes(&data[38..44]) {
            Ok(t) => t,
            Err(e) => {
                return Err(e);
            },
        };
        Ok(
            ComponentConfig::new(
                system_type,
                data[1],
                component_type,
                component_address,
                component_description,
                timestamp,
            ),
        )
    }

    fn timestamp(&self) -> (r: Option<&Timestamp>)
        ensures
            r == Some(&self.timestamp),
    {
        Some(&self.timestamp)
    }
}

/// Configuration of the user information transmission device.
#[derive(Debug, Clone, PartialEq, Eq)]
pub struct DeviceConfig {
    /// device description bytes (at most 255)
    pub device_description: Vec<u8>,
    /// time label
    pub timestamp: Timestamp,
}

/// Whether `b` begins with a device configuration: the length byte, that
/// many description bytes and a valid time label.
pub open spec fn device_config_bytes_ok(b: Seq<u8>) -> bool {
    let n = b[0] as int;
    &&& b.len() >= 7
    &&& b.len() >= 7 + n
    &&& bytes_are_valid_timestamp(b.subrange(1 + n, 7 + n))
}

/// The outcome of reading a device configuration from `b`.
pub open spec fn device_config_parse_ok(b: Seq<u8>, r: ParseResult<DeviceConfig>) -> bool {
    let n = b[0] as int;
    &&& r is Ok <==> device_config_bytes_ok(b)
    &&& r matches Ok(c) ==> c.device_description@ == b.subrange(1, 1 + n) && c.timestamp
        == timestamp_of_bytes(b.subrange(1 + n, 7 + n))
    &&& b.len() < 7 ==> (r matches Err(ParseError::TooShort { actual, expected }) && actual
        == b.len() && expected == 7)
    &&& b.len() >= 7 && b.len() < 7 + n ==> (r matches Err(ParseError::TooShort { actual, expected })
        && actual == b.len() && expected == 7 + n)
    &&& b.len() >= 7 + n && !bytes_are_valid_timestamp(b.subrange(1 + n, 7 + n)) ==> (r matches Err(
        e,
    ) && timestamp_error_of(b.subrange(1 + n, 7 + n), e))
}

impl DeviceConfig {
    /// The bytes of the object.
    pub open spec fn spec_bytes(self) -> Seq<u8> {
        seq![(self.device_description@.len() % 256) as u8] + self.device_description@
            + self.timestamp.spec_bytes()
    }

    /// A device configuration whose bytes read back as itself.
    pub open spec fn wire_representable(self) -> bool {
        self.device_description@.len() <= 255 && self.timestamp.spec_is_valid()
    }

    /// Creates a device configuration; refuses a description longer than
    /// 255 bytes.
    pub fn new(device_description: Vec<u8>, timestamp: Timestamp) -> (r: Result<Self, ParseError>)
        ensures
            r is Ok <==> device_description@.len() <= 255,
            r matches Ok(c) ==> c == (DeviceConfig { device_description, timestamp }),
            r matches Err(e) ==> e matches ParseError::InvalidDataLength { actual, expected }
                && actual == device_description@.len() && expected == 255,
    {
        if device_description.len() > 255 {
            return Err(ParseError::InvalidDataLength { actual: device_description.len(), expected: 255 });
        }
        Ok(Self { device_description, timestamp })
    }

    /// Creates a device configuration from the UTF-8 bytes of `description_text`.
    pub fn with_description_text(description_text: &str, timestamp: Timestamp) -> (r: Result<
        Self,
        ParseError,
    >)
        ensures
            r is Ok <==> description_text.spec_bytes().len() <= 255,
            r matches Ok(c) ==> c.device_description@ == description_text.spec_bytes()
                && c.timestamp == timestamp,
            r matches Err(e) ==> e matches ParseError::InvalidDataLength { actual, expected }
                && actual == description_text.spec_bytes().len() && expected == 255,
    {
        let device_description = vstd::slice::slice_to_vec(description_text.as_bytes());
        Self::new(device_description, timestamp)
    }

    /// The description read as UTF-8.
    pub fn description_text(&self) -> (r: Result<&str, std::str::Utf8Error>)
        ensures
            r is Ok <==> vstd::utf8::valid_utf8(self.device_description@),
            r matches Ok(t) ==> t@ == vstd::utf8::decode_utf8(self.device_description@),
    {
        utf8_str(self.device_description.as_slice())
    }
}

impl InfoObject for DeviceConfig {
    /// Type code 26.
    fn object_type(&self) -> (r: u8)
        ensures
            r == 26,
    {
        26
    }

    fn description(&self) -> (r: Option<&str>)
        ensures
            r matches Some(t) && t@ == "用户信息传输装置配置情况"@,
    {
        Some("用户信息传输装置配置情况")
    }

    /// The bytes; the length byte holds the description length modulo 256.
    fn encode(&self) -> (r: EncodeResult<Vec<u8>>)
        ensures
            r matches Ok(v) && v@ == self.spec_bytes(),
    {
        let mut buf: Vec<u8> = Vec::new();
        buf.push((self.device_description.len() % 256) as u8);
        append_bytes(&mut buf, self.device_description.as_slice());
        let ts = self.timestamp.to_bytes();
        append_bytes(&mut buf, &ts);
        proof {
            assert(buf@ =~= self.spec_bytes());
        }
        Ok(buf)
    }

    fn parse(data: &[u8]) -> (r: ParseResult<Self>)
        ensures
            device_config_parse_ok(data@, r),
    {
        if data.len() < 7 {
            return Err(ParseError::TooShort { actual: data.len(), expected: 7 });
        }
        let n = data[0] as usize;
        if data.len() < 7 + n {
            return Err(ParseError::TooShort { actual: data.len(), expected: 7 + n });
        }
        let device_description = vstd::slice::slice_to_vec(&data[1..1 + n]);
        let timestamp = match Timestamp::from_bytes(&data[1 + n..7 + n]) {
            Ok(t) => t,
            Err(e) => {
                return Err(e);
            },
        };
        match Self::new(device_description, timestamp) {
            Ok(c) => Ok(c),
            Err(_) => Err(ParseError::InvalidDataLength { actual: n, expected: 255 }),
        }
    }

    fn timestamp(&self) -> (r: Option<&Timestamp>)
        ensures
            r == Some(&self.timestamp),
    {
        Some(&self.timestamp)
    }
}

/// Reading back the bytes of a representable system configuration gives the
/// configuration's fields.
pub proof fn law_fire_system_config_roundtrip(c: FireSystemConfig)
    requires
        c.wire_representable(),
    ensures
        fire_system_config_bytes_ok(c.spec_bytes()),
        c.spec_bytes().len() == 9 + c.config_description@.len() as int,
        c.spec_bytes()[2] == c.config_description@.len(),
        c.spec_bytes().subrange(3, 3 + c.config_description@.len() as int) == c.config_description@,
        timestamp_of_bytes(
            c.spec_bytes().subrange(
                3 + c.config_description@.len() as int,
                9 + c.config_description@.len() as int,
            ),
        ) == c.timestamp,
{
    let b = c.spec_bytes();
    let n = c.config_description@.len() as int;
    assert(b.subrange(3, 3 + n) =~= c.config_description@);
    assert(b.subrange(3 + n, 9 + n) =~= c.timestamp.spec_bytes());
    assert(timestamp_of_bytes(c.timestamp.spec_bytes()) == c.timestamp);
}

/// Reading back the bytes of a representable component configuration gives
/// the configuration.
pub proof fn law_component_config_roundtrip(c: ComponentConfig)
    requires
        c.wire_representable(),
    ensures
        c.spec_bytes().len() == 44,
        bytes_are_valid_timestamp(c.spec_bytes().subrange(38, 44)),
        component_config_matches(c, c.spec_bytes()),
{
    let b = c.spec_bytes();
    lemma_le32_roundtrip(c.component_address);
    assert(b.subrange(7, 38) =~= c.component_description@);
    assert(b.subrange(38, 44) =~= c.timestamp.spec_bytes());
    assert(timestamp_of_bytes(c.timestamp.spec_bytes()) == c.timestamp);
}

/// Reading back the bytes of a representable device configuration gives the
/// configuration's fields.
pub proof fn law_device_config_roundtrip(c: DeviceConfig)
    requires
        c.wire_representable(),
    ensures
        device_config_bytes_ok(c.spec_bytes()),
        c.spec_bytes().len() == 7 + c.device_description@.len() as int,
        c.spec_bytes()[0] == c.device_description@.len(),
        c.spec_bytes().subrange(1, 1 + c.device_description@.len() as int) == c.device_description@,
        timestamp_of_bytes(
            c.spec_bytes().subrange(
                1 + c.device_description@.len() as int,
                7 + c.device_description@.len() as int,
            ),
        ) == c.timestamp,
{
    let b = c.spec_bytes();
    let n = c.device_description@.len() as int;
    assert(b.subrange(1, 1 + n) =~= c.device_description@);
    assert(b.subrange(1 + n, 7 + n) =~= c.timestamp.spec_bytes());
    assert(timestamp_of_bytes(c.timestamp.spec_bytes()) == c.timestamp);
}

} // verus!
