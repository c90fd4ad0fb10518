//! Operation records: an operation on a building fire facility system
//! (system type and address, operation flags, operator, time label; 10
//! bytes) and an operation on the user information transmission device
//! (operation flags, operator, time label; 8 bytes).
use super::InfoObject;
use crate::error::{EncodeResult, ParseError, ParseResult};
use crate::frame::timestamp::{
    bytes_are_valid_timestamp, timestamp_error_of, timestamp_of_bytes, Timestamp,
};
use crate::protocol::SystemType;
use crate::wire::append_bytes;
use vstd::prelude::*;

verus! {

/// Operation on a building fire facility system.
#[derive(Debug, Clone, Copy, PartialEq, Eq, Structural)]
pub struct FireSystemOperation {
    /// system type code
    pub system_type: SystemType,
    /// system address
    pub system_address: u8,
    /// operation flags: reset, silence, manual alarm, alarm clear, self test,
    /// confirm, test (bits 0 to 6)
    pub operation_flags: u8,
    /// operator number
    pub operator_id: u8,
    /// time label
    pub timestamp: Timestamp,
}

/// System operation read from the first 10 bytes of `b`.
pub open spec fn fire_system_operation_of_bytes(b: Seq<u8>) -> FireSystemOperation {
    FireSystemOperation {
        system_type: SystemType::spec_from_u8(b[0]),
        system_address: b[1],
        operation_flags: b[2],
        operator_id: b[3],
        timestamp: timestamp_of_bytes(b.subrange(4, 10)),
    }
}

/// Whether the first 10 bytes of `b` hold a system operation with a valid
/// time label.
pub open spec fn fire_system_operation_bytes_ok(b: Seq<u8>) -> bool {
    b.len() >= 10 && bytes_are_valid_timestamp(b.subrange(4, 10))
}

/// The outcome of reading a system operation from `b`.
pub open spec fn fire_system_operation_parse_ok(
    b: Seq<u8>,
    r: ParseResult<FireSystemOperation>,
) -> bool {
    &&& r is Ok <==> (b.len() >= 10 && bytes_are_valid_timestamp(b.subrange(4, 10)))
    &&& r matches Ok(o) ==> o == fire_system_operation_of_bytes(b)
    &&& b.len() < 10 ==> (r matches Err(ParseError::TooShort { actual, expected }) && actual
        == b.len() && expected == 10)
    &&& b.len() >= 10 && !bytes_are_valid_timestamp(b.subrange(4, 10)) ==> (r matches Err(e)
        && timestamp_error_of(b.subrange(4, 10), e))
}

impl FireSystemOperation {
    /// The 10 bytes of the object.
    pub open spec fn spec_bytes(self) -> Seq<u8> {
        seq![self.system_type.spec_to_u8(), self.system_address, self.operation_flags, self.operator_id]
            + self.timestamp.spec_bytes()
    }

    /// A system operation whose bytes read back as itself.
    pub open spec fn wire_representable(self) -> bool {
        self.system_type.well_formed() && self.timestamp.spec_is_valid()
    }

    /// Creates a system operation.
    pub fn new(
        system_type: SystemType,
        system_address: u8,
        operation_flags: u8,
        operator_id: u8,
        timestamp: Timestamp,
    ) -> (r: Self)
        ensures
            r == (FireSystemOperation {
                system_type,
                system_address,
                operation_flags,
                operator_id,
                timestamp,
            }),
    {
        Self { system_type, system_address, operation_flags, operator_id, timestamp }
    }

    /// Sets the reset flag (bit 0x01).
    pub fn with_reset(self) -> (r: Self)
        ensures
            r == (FireSystemOperation { operation_flags: self.operation_flags | 0x01u8, ..self }),
    {
        let mut s = self;
        s.operation_flags = s.operation_flags | 0x01;
        s
    }

    /// Sets the silence flag (bit 0x02).
    pub fn with_silence(self) -> (r: Self)
        ensures
            r == (FireSystemOperation { operation_flags: self.operation_flags | 0x02u8, ..self }),
    {
        let mut s = self;
        s.operation_flags = s.operation_flags | 0x02;
        s
    }

    /// Sets the manual alarm flag (bit 0x04).
    pub fn with_manual_alarm(self) -> (r: Self)
        ensures
            r == (FireSystemOperation { operation_flags: self.operation_flags | 0x04u8, ..self }),
    {
        let mut s = self;
        s.operation_flags = s.operation_flags | 0x04;
        s
    }

    /// Sets the alarm clear flag (bit 0x08).
    pub fn with_alarm_clear(self) -> (r: Self)
        ensures
            r == (FireSystemOperation { operation_flags: self.operation_flags | 0x08u8, ..self }),
    {
        let mut s = self;
        s.operation_flags = s.operation_flags | 0x08;
        s
    }

    /// Sets the self test flag (bit 0x10).
    pub fn with_self_test(self) -> (r: Self)
        ensures
            r == (FireSystemOperation { operation_flags: self.operation_flags | 0x10u8, ..self }),
    {
        let mut s = self;
        s.operation_flags = s.operation_flags | 0x10;
        s
    }

    /// Sets the confirm flag (bit 0x20).
    pub fn with_confirm(self) -> (r: Self)
        ensures
            r == (FireSystemOperation { operation_flags: self.operation_flags | 0x20u8, ..self }),
    {
        let mut s = self;
        s.operation_flags = s.operation_flags | 0x20;
        s
    }

    /// Sets the test flag (bit 0x40).
    pub fn with_test(self) -> (r: Self)
        ensures
            r == (FireSystemOperation { operation_flags: self.operation_flags | 0x40u8, ..self }),
    {
        let mut s = self;
        s.operation_flags = s.operation_flags | 0x40;
        s
    }
}

impl InfoObject for FireSystemOperation {
    /// Type code 4.
    fn object_type(&self) -> (r: u8)
        ensures
            r == 4,
    {
        4
    }

    fn description(&self) -> (r: Option<&str>)
        ensures
            r matches Some(t) && t@ == "建筑消防设施操作信息"@,
    {
        Some("建筑消防设施操作信息")
    }

    fn encode(&self) -> (r: EncodeResult<Vec<u8>>)
        ensures
            r matches Ok(v) && v@ == self.spec_bytes(),
    {
        let mut buf: Vec<u8> = Vec::with_capacity(10);
        buf.push(self.system_type.to_u8());
        buf.push(self.system_address);
        buf.push(self.operation_flags);
        buf.push(self.operator_id);
        let ts = self.timestamp.to_bytes();
        append_bytes(&mut buf, &ts);
        proof {
            assert(buf@ =~= self.spec_bytes());
        }
        Ok(buf)
    }

    fn parse(data: &[u8]) -> (r: ParseResult<Self>)
        ensures
            fire_system_operation_parse_ok(data@, r),
    {
        if data.len() < 10 {
            return Err(ParseError::TooShort { actual: data.len(), expected: 10 });
        }
        let system_type = SystemType::from_u8(data[0]);
        let timestamp = match Timestamp::from_bytes(&data[4..10]) {
            Ok(t) => t,
            Err(e) => {
                return Err(e);
            },
        };
        Ok(FireSystemOperation::new(system_type, data[1], data[2], data[3], timestamp))
    }

    fn timestamp(&self) -> (r: Option<&Timestamp>)
        ensures
            r == Some(&self.timestamp),
    {
        Some(&self.timestamp)
    }
}

/// Operation on the user information transmission device.
#[derive(Debug, Clone, Copy, PartialEq, Eq, Structural)]
pub struct DeviceOperation {
    /// operation flags: reset, silence, manual alarm, alarm elimination, self
    /// test, patrol response, test (bits 0 to 6)
    pub operation_flags: u8,
    /// operator number
    pub operator_id: u8,
    /// time label
    pub timestamp: Timestamp,
}

/// Device operation read from the first 8 bytes of `b`.
pub open spec fn device_operation_of_bytes(b: Seq<u8>) -> DeviceOperation {
    DeviceOperation {
        operation_flags: b[0],
        operator_id: b[1],
        timestamp: timestamp_of_bytes(b.subrange(2, 8)),
    }
}

/// Whether the first 8 bytes of `b` hold a device operation with a valid
/// time label.
pub open spec fn device_operation_bytes_ok(b: Seq<u8>) -> bool {
    b.len() >= 8 && bytes_are_valid_timestamp(b.subrange(2, 8))
}

/// The outcome of reading a device operation from `b`.
pub open spec fn device_operation_parse_ok(b: Seq<u8>, r: ParseResult<DeviceOperation>) -> bool {
    &&& r is Ok <==> (b.len() >= 8 && bytes_are_valid_timestamp(b.subrange(2, 8)))
    &&& r matches Ok(o) ==> o == device_operation_of_bytes(b)
    &&& b.len() < 8 ==> (r matches Err(ParseError::TooShort { actual, expected }) && actual
        == b.len() && expected == 8)
    &&& b.len() >= 8 && !bytes_are_valid_timestamp(b.subrange(2, 8)) ==> (r matches Err(e)
        && timestamp_error_of(b.subrange(2, 8), e))
}

impl DeviceOperation {
    /// The 8 bytes of the object.
    pub open spec fn spec_bytes(self) -> Seq<u8> {
        seq![self.operation_flags, self.operator_id] + self.timestamp.spec_bytes()
    }

    /// Creates a device operation.
    pub fn new(operation_flags: u8, operator_id: u8, timestamp: Timestamp) -> (r: Self)
        ensures
            r == (DeviceOperation { operation_flags, operator_id, timestamp }),
    {
        Self { operation_flags, operator_id, timestamp }
    }

    /// Sets the reset flag (bit 0x01).
    pub fn with_reset(self) -> (r: Self)
        ensures
            r == (DeviceOperation { operation_flags: self.operation_flags | 0x01u8, ..self }),
    {
        let mut s = self;
        s.operation_flags = s.operation_flags | 0x01;
        s
    }

    /// Sets the silence flag (bit 0x02).
    pub fn with_silence(self) -> (r: Self)
        ensures
            r == (DeviceOperation { operation_flags: self.operation_flags | 0x02u8, ..self }),
    {
        let mut s = self;
        s.operation_flags = s.operation_flags | 0x02;
        s
    }

    /// Sets the manual alarm flag (bit 0x04).
    pub fn with_manual_alarm(self) -> (r: Self)
        ensures
            r == (DeviceOperation { operation_flags: self.operation_flags | 0x04u8, ..self }),
    {
        let mut s = self;
        s.operation_flags = s.operation_flags | 0x04;
        s
    }

    /// Sets the alarm elimination flag (bit 0x08).
    pub fn with_alarm_elimination(self) -> (r: Self)
        ensures
            r == (DeviceOperation { operation_flags: self.operation_flags | 0x08u8, ..self }),
    {
        let mut s = self;
        s.operation_flags = s.operation_flags | 0x08;
        s
    }

    /// Sets the self test flag (bit 0x10).
    pub fn with_self_test(self) -> (r: Self)
        ensures
            r == (DeviceOperation { operation_flags: self.operation_flags | 0x10u8, ..self }),
    {
        let mut s = self;
        s.operation_flags = s.operation_flags | 0x10;
        s
    }

    /// Sets the patrol response flag (bit 0x20).
    pub fn with_patrol_response(self) -> (r: Self)
        ensures
            r == (DeviceOperation { operation_flags: self.operation_flags | 0x20u8, ..self }),
    {
        let mut s = self;
        s.operation_flags = s.operation_flags | 0x20;
        s
    }

    /// Sets the test flag (bit 0x40).
    pub fn with_test(self) -> (r: Self)
        ensures
            r == (DeviceOperation { operation_flags: self.operation_flags | 0x40u8, ..self }),
    {
        let mut s = self;
        s.operation_flags = s.operation_flags | 0x40;
        s
    }
}

impl InfoObject for DeviceOperation {
    /// Type code 24.
    fn object_type(&self) -> (r: u8)
        ensures
            r == 24,
    {
        24
    }

    fn description(&self) -> (r: Option<&str>)
        ensures
            r matches Some(t) && t@ == "用户信息传输装置操作信息"@,
    {
        Some("用户信息传输装置操作信息")
    }

    fn encode(&self) -> (r: EncodeResult<Vec<u8>>)
        ensures
            r matches Ok(v) && v@ == self.spec_bytes(),
    {
        let mut buf: Vec<u8> = Vec::with_capacity(8);
        buf.push(self.operation_flags);
        buf.push(self.operator_id);
        let ts = self.timestamp.to_bytes();
        append_bytes(&mut buf, &ts);
        proof {
            assert(buf@ =~= self.spec_bytes());
        }
        Ok(buf)
    }

    fn parse(data: &[u8]) -> (r: ParseResult<Self>)
        ensures
            device_operation_parse_ok(data@, r),
    {
        if data.len() < 8 {
            return Err(ParseError::TooShort { actual: data.len(), expected: 8 });
        }
        let timestamp = match Timestamp::from_bytes(&data[2..8]) {
            Ok(t) => t,
            Err(e) => {
                return Err(e);
            },
        };
        Ok(DeviceOperation::new(data[0], data[1], timestamp))
    }

    fn timestamp(&self) -> (r: Option<&Timestamp>)
        ensures
            r == Some(&self.timestamp),
    {
        Some(&self.timestamp)
    }
}

/// Reading back the bytes of a representable system operation gives the
/// operation.
pub proof fn law_fire_system_operation_roundtrip(o: FireSystemOperation)
    requires
        o.wire_representable(),
    ensures
        o.spec_bytes().len() == 10,
        bytes_are_valid_timestamp(o.spec_bytes().subrange(4, 10)),
        fire_system_operation_of_bytes(o.spec_bytes()) == o,
{
    assert(o.spec_bytes().subrange(4, 10) =~= o.timestamp.spec_bytes());
    assert(timestamp_of_bytes(o.timestamp.spec_bytes()) == o.timestamp);
}

/// Reading back the bytes of a device operation with a valid time label
/// gives the operation.
pub proof fn law_device_operation_roundtrip(o: DeviceOperation)
    requires
        o.timestamp.spec_is_valid(),
    ensures
        o.spec_bytes().len() == 8,
        bytes_are_valid_timestamp(o.spec_bytes().subrange(2, 8)),
        device_operation_of_bytes(o.spec_bytes()) == o,
{
    assert(o.spec_bytes().subrange(2, 8) =~= o.timestamp.spec_bytes());
    assert(timestamp_of_bytes(o.timestamp.spec_bytes()) == o.timestamp);
}

} // verus!
