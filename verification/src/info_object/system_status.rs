//! State of a building fire facility system: system type, system address,
//! two state bytes and a time label, 10 bytes in all.
use super::InfoObject;
use crate::error::{EncodeResult, ParseError, ParseResult};
use crate::frame::timestamp::{
    bytes_are_valid_timestamp, timestamp_error_of, timestamp_of_bytes, Timestamp,
};
use crate::protocol::{law_system_type_byte_roundtrip, SystemType};
use crate::wire::{le16, le16_bytes, lemma_le16_roundtrip, u16_from_le, u16_to_le};
use vstd::prelude::*;

verus! {

/// State of a building fire facility system.
#[derive(Debug, Clone, Copy, PartialEq, Eq, Structural)]
pub struct SystemStatus {
    /// system type code
    pub system_type: SystemType,
    /// system address
    pub system_address: u8,
    /// state flags (little-endian on the wire)
    pub system_state: u16,
    /// time label
    pub timestamp: Timestamp,
}

/// System state read from the first 10 bytes of `b`.
pub open spec fn system_status_of_bytes(b: Seq<u8>) -> SystemStatus {
    SystemStatus {
        system_type: SystemType::spec_from_u8(b[0]),
        system_address: b[1],
        system_state: le16(b[2], b[3]),
        timestamp: timestamp_of_bytes(b.subrange(4, 10)),
    }
}

/// Whether the first 10 bytes of `b` hold a system state with a valid time label.
pub open spec fn system_status_bytes_ok(b: Seq<u8>) -> bool {
    b.len() >= 10 && bytes_are_valid_timestamp(b.subrange(4, 10))
}

/// The outcome of reading a system state from `b`.
pub open spec fn system_status_parse_ok(b: Seq<u8>, r: ParseResult<SystemStatus>) -> bool {
    &&& r is Ok <==> (b.len() >= 10 && bytes_are_valid_timestamp(b.subrange(4, 10)))
    &&& r matches Ok(s) ==> s == system_status_of_bytes(b)
    &&& b.len() < 10 ==> (r matches Err(ParseError::TooShort { actual, expected }) && actual
        == b.len() && expected == 10)
    &&& b.len() >= 10 && !bytes_are_valid_timestamp(b.subrange(4, 10)) ==> (r matches Err(e)
        && timestamp_error_of(b.subrange(4, 10), e))
}

impl SystemStatus {
    /// The 10 bytes of the object.
    pub open spec fn spec_bytes(self) -> Seq<u8> {
        seq![self.system_type.spec_to_u8(), self.system_address] + le16_bytes(self.system_state)
            + self.timestamp.spec_bytes()
    }

    /// A system state whose bytes read back as itself.
    pub open spec fn wire_representable(self) -> bool {
        self.system_type.well_formed() && self.timestamp.spec_is_valid()
    }

    /// Creates a system state.
    pub fn new(system_type: SystemType, system_address: u8, system_state: u16, timestamp: Timestamp) -> (r: Self)
        ensures
            r == (SystemStatus { system_type, system_address, system_state, timestamp }),
    {
        Self { system_type, system_address, system_state, timestamp }
    }
}

impl InfoObject for SystemStatus {
    /// Type code 1.
    fn object_type(&self) -> (r: u8)
        ensures
            r == 1,
    {
        1
    }

    fn description(&self) -> (r: Option<&str>)
        ensures
            r matches Some(t) && t@ == "建筑消防设施系统状态"@,
    {
        Some("建筑消防设施系统状态")
    }

    fn encode(&self) -> (r: EncodeResult<Vec<u8>>)
        ensures
            r matches Ok(v) && v@ == self.spec_bytes(),
    {
        let mut buf: Vec<u8> = Vec::with_capacity(10);
        buf.push(self.system_type.to_u8());
        buf.push(self.system_address);
        let st = u16_to_le(self.system_state);
        buf.push(st[0]);
        buf.push(st[1]);
        let ts = self.timestamp.to_bytes();
        crate::wire::append_bytes(&mut buf, &ts);
        proof {
            assert(buf@ =~= self.spec_bytes());
        }
        Ok(buf)
    }

    fn parse(data: &[u8]) -> (r: ParseResult<Self>)
        ensures
            system_status_parse_ok(data@, r),
    {
        if data.len() < 10 {
            return Err(ParseError::TooShort { actual: data.len(), expected: 10 });
        }
        let system_type = SystemType::from_u8(data[0]);
        let system_address = data[1];
        let system_state = u16_from_le(data[2], data[3]);
        let timestamp = match Timestamp::from_bytes(&data[4..10]) {
            Ok(t) => t,
            Err(e) => {
                return Err(e);
            },
        };
        Ok(SystemStatus::new(system_type, system_address, system_state, timestamp))
    }

    fn timestamp(&self) -> (r: Option<&Timestamp>)
        ensures
            r == Some(&self.timestamp),
    {
        Some(&self.timestamp)
    }
}

/// Reading back the bytes of a representable system state gives the state.
pub proof fn law_system_status_roundtrip(s: SystemStatus)
    requires
        s.wire_representable(),
    ensures
        s.spec_bytes().len() == 10,
        bytes_are_valid_timestamp(s.spec_bytes().subrange(4, 10)),
        system_status_of_bytes(s.spec_bytes()) == s,
{
    let b = s.spec_bytes();
    lemma_le16_roundtrip(s.system_state);
    assert(b.subrange(4, 10) =~= s.timestamp.spec_bytes());
    assert(timestamp_of_bytes(s.timestamp.spec_bytes()) == s.timestamp);
}

} // verus!
