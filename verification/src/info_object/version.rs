//! Software versions: of a building fire facility system (system type and
//! address, major and minor version, time label; 10 bytes) and of the user
//! information transmission device (major and minor version, time label;
//! 8 bytes).
use super::InfoObject;
use crate::error::{EncodeResult, ParseError, ParseResult};
use crate::frame::timestamp::{
    bytes_are_valid_timestamp, timestamp_error_of, timestamp_of_bytes, Timestamp,
};
use crate::protocol::SystemType;
use crate::text::{decimal_text, push_char, push_decimal};
use crate::wire::append_bytes;
use vstd::prelude::*;

verus! {

/// Text `major.minor` of a version.
pub open spec fn version_text(major: u8, minor: u8) -> Seq<char> {
    decimal_text(major as nat) + seq!['.'] + decimal_text(minor as nat)
}

/// Writes `major.minor`.
fn version_string_of(major: u8, minor: u8) -> (r: String)
    ensures
        r@ == version_text(major, minor),
{
    let mut s = String::new();
    push_decimal(&mut s, major as u64);
    push_char(&mut s, '.');
    push_decimal(&mut s, minor as u64);
    proof {
        assert(s@ =~= version_text(major, minor));
    }
    s
}

/// Software version of a building fire facility system.
#[derive(Debug, Clone, Copy, PartialEq, Eq, Structural)]
pub struct FireSystemVersion {
    /// system type code
    pub system_type: SystemType,
    /// system address
    pub system_address: u8,
    /// major version
    pub major_version: u8,
    /// minor version
    pub minor_version: u8,
    /// time label
    pub timestamp: Timestamp,
}

/// System version read from the first 10 bytes of `b`.
pub open spec fn fire_system_version_of_bytes(b: Seq<u8>) -> FireSystemVersion {
    FireSystemVersion {
        system_type: SystemType::spec_from_u8(b[0]),
        system_address: b[1],
        major_version: b[2],
        minor_version: b[3],
        timestamp: timestamp_of_bytes(b.subrange(4, 10)),
    }
}

/// Whether the first 10 bytes of `b` hold a system version with a valid
/// time label.
pub open spec fn fire_system_version_bytes_ok(b: Seq<u8>) -> bool {
    b.len() >= 10 && bytes_are_valid_timestamp(b.subrange(4, 10))
}

/// The outcome of reading a system version from `b`.
pub open spec fn fire_system_version_parse_ok(b: Seq<u8>, r: ParseResult<FireSystemVersion>) -> bool {
    &&& r is Ok <==> (b.len() >= 10 && bytes_are_valid_timestamp(b.subrange(4, 10)))
    &&& r matches Ok(v) ==> v == fire_system_version_of_bytes(b)
    &&& b.len() < 10 ==> (r matches Err(ParseError::TooShort { actual, expected }) && actual
        == b.len() && expected == 10)
    &&& b.len() >= 10 && !bytes_are_valid_timestamp(b.subrange(4, 10)) ==> (r matches Err(e)
        && timestamp_error_of(b.subrange(4, 10), e))
}

impl FireSystemVersion {
    /// The 10 bytes of the object.
    pub open spec fn spec_bytes(self) -> Seq<u8> {
        seq![self.system_type.spec_to_u8(), self.system_address, self.major_version, self.minor_version]
            + self.timestamp.spec_bytes()
    }

    /// A system version whose bytes read back as itself.
    pub open spec fn wire_representable(self) -> bool {
        self.system_type.well_formed() && self.timestamp.spec_is_valid()
    }

    /// Creates a system version.
    pub fn new(
        system_type: SystemType,
        system_address: u8,
        major_version: u8,
        minor_version: u8,
        timestamp: Timestamp,
    ) -> (r: Self)
        ensures
            r == (FireSystemVersion {
                system_type,
                system_address,
                major_version,
                minor_version,
                timestamp,
            }),
    {
        Self { system_type, system_address, major_version, minor_version, timestamp }
    }

    /// The version as `major.minor`.
    pub fn version_string(&self) -> (r: String)
        ensures
            r@ == version_text(self.major_version, self.minor_version),
    {
        version_string_of(self.major_version, self.minor_version)
    }
}

impl InfoObject for FireSystemVersion {
    /// Type code 5.
    fn object_type(&self) -> (r: u8)
        ensures
            r == 5,
    {
        5
    }

    fn description(&self) -> (r: Option<&str>)
        ensures
            r matches Some(t) && t@ == "建筑消防设施软件版本"@,
    {
        Some("建筑消防设施软件版本")
    }

    fn encode(&self) -> (r: EncodeResult<Vec<u8>>)
        ensures
            r matches Ok(v) && v@ == self.spec_bytes(),
    {
        let mut buf: Vec<u8> = Vec::with_capacity(10);
        buf.push(self.system_type.to_u8());
        buf.push(self.system_address);
        buf.push(self.major_version);
        buf.push(self.minor_version);
        let ts = self.timestamp.to_bytes();
        append_bytes(&mut buf, &ts);
        proof {
            assert(buf@ =~= self.spec_bytes());
        }
        Ok(buf)
    }

    fn parse(data: &[u8]) -> (r: ParseResult<Self>)
        ensures
            fire_system_version_parse_ok(data@, r),
    {
        if data.len() < 10 {
            return Err(ParseError::TooShort { actual: data.len(), expected: 10 });
        }
        let system_type = SystemType::from_u8(data[0]);
        let timestamp = match Timestamp::from_bytes(&data[4..10]) {
            Ok(t) => t,
            Err(e) => {
                return Err(e);
            },
        };
        Ok(FireSystemVersion::new(system_type, data[1], data[2], data[3], timestamp))
    }

    fn timestamp(&self) -> (r: Option<&Timestamp>)
        ensures
            r == Some(&self.timestamp),
    {
        Some(&self.timestamp)
    }
}

/// Software version of the user information transmission device.
#[derive(Debug, Clone, Copy, PartialEq, Eq, Structural)]
pub struct DeviceVersion {
    /// major version
    pub major_version: u8,
    /// minor version
    pub minor_version: u8,
    /// time label
    pub timestamp: Timestamp,
}

/// Device version read from the first 8 bytes of `b`.
pub open spec fn device_version_of_bytes(b: Seq<u8>) -> DeviceVersion {
    DeviceVersion {
        major_version: b[0],
        minor_version: b[1],
        timestamp: timestamp_of_bytes(b.subrange(2, 8)),
    }
}

/// Whether the first 8 bytes of `b` hold a device version with a valid time
/// label.
pub open spec fn device_version_bytes_ok(b: Seq<u8>) -> bool {
    b.len() >= 8 && bytes_are_valid_timestamp(b.subrange(2, 8))
}

/// The outcome of reading a device version from `b`.
pub open spec fn device_version_parse_ok(b: Seq<u8>, r: ParseResult<DeviceVersion>) -> bool {
    &&& r is Ok <==> (b.len() >= 8 && bytes_are_valid_timestamp(b.subrange(2, 8)))
    &&& r matches Ok(v) ==> v == device_version_of_bytes(b)
    &&& b.len() < 8 ==> (r matches Err(ParseError::TooShort { actual, expected }) && actual
        == b.len() && expected == 8)
    &&& b.len() >= 8 && !bytes_are_valid_timestamp(b.subrange(2, 8)) ==> (r matches Err(e)
        && timestamp_error_of(b.subrange(2, 8), e))
}

impl DeviceVersion {
    /// The 8 bytes of the object.
    pub open spec fn spec_bytes(self) -> Seq<u8> {
        seq![self.major_version, self.minor_version] + self.timestamp.spec_bytes()
    }

    /// Creates a device version.
    pub fn new(major_version: u8, minor_version: u8, timestamp: Timestamp) -> (r: Self)
        ensures
            r == (DeviceVersion { major_version, minor_version, timestamp }),
    {
        Self { major_version, minor_version, timestamp }
    }

    /// The version as `major.minor`.
    pub fn version_string(&self) -> (r: String)
        ensures
            r@ == version_text(self.major_version, self.minor_version),
    {
        version_string_of(self.major_version, self.minor_version)
    }
}

impl InfoObject for DeviceVersion {
    /// Type code 25.
    fn object_type(&self) -> (r: u8)
        ensures
            r == 25,
    {
        25
    }

    fn description(&self) -> (r: Option<&str>)
        ensures
            r matches Some(t) && t@ == "用户信息传输装置软件版本"@,
    {
        Some("用户信息传输装置软件版本")
    }

    fn encode(&self) -> (r: EncodeResult<Vec<u8>>)
        ensures
            r matches Ok(v) && v@ == self.spec_bytes(),
    {
        let mut buf: Vec<u8> = Vec::with_capacity(8);
        buf.push(self.major_version);
        buf.push(self.minor_version);
        let ts = self.timestamp.to_bytes();
        append_bytes(&mut buf, &ts);
        proof {
            assert(buf@ =~= self.spec_bytes());
        }
        Ok(buf)
    }

    fn parse(data: &[u8]) -> (r: ParseResult<Self>)
        ensures
            device_version_parse_ok(data@, r),
    {
        if data.len() < 8 {
            return Err(ParseError::TooShort { actual: data.len(), expected: 8 });
        }
        let timestamp = match Timestamp::from_bytes(&data[2..8]) {
            Ok(t) => t,
            Err(e) => {
                return Err(e);
            },
        };
        Ok(DeviceVersion::new(data[0], data[1], timestamp))
    }

    fn timestamp(&self) -> (r: Option<&Timestamp>)
        ensures
            r == Some(&self.timestamp),
    {
        Some(&self.timestamp)
    }
}

/// Reading back the bytes of a representable system version gives the
/// version.
pub proof fn law_fire_system_version_roundtrip(v: FireSystemVersion)
    requires
        v.wire_representable(),
    ensures
        v.spec_bytes().len() == 10,
        bytes_are_valid_timestamp(v.spec_bytes().subrange(4, 10)),
        fire_system_version_of_bytes(v.spec_bytes()) == v,
{
    assert(v.spec_bytes().subrange(4, 10) =~= v.timestamp.spec_bytes());
    assert(timestamp_of_bytes(v.timestamp.spec_bytes()) == v.timestamp);
}

/// Reading back the bytes of a device version with a valid time label gives
/// the version.
pub proof fn law_device_version_roundtrip(v: DeviceVersion)
    requires
        v.timestamp.spec_is_valid(),
    ensures
        v.spec_bytes().len() == 8,
        bytes_are_valid_timestamp(v.spec_bytes().subrange(2, 8)),
        device_version_of_bytes(v.spec_bytes()) == v,
{
    assert(v.spec_bytes().subrange(2, 8) =~= v.timestamp.spec_bytes());
    assert(timestamp_of_bytes(v.timestamp.spec_bytes()) == v.timestamp);
}

} // verus!
