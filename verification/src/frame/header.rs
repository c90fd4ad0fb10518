//! GB26875 control unit: sequence number, protocol version, time label,
//! source and destination addresses, data unit length and command byte,
//! 25 bytes in all.
use crate::error::{ParseError, ParseResult};
use crate::frame::timestamp::{
    bytes_are_valid_timestamp, first_invalid_field, timestamp_of_bytes, Timestamp,
};
use crate::protocol::{Command, ProtocolVersion, MAX_DATA_UNIT_SIZE};
use crate::wire::{
    le16, le16_bytes, le48, le48_bytes, lemma_le16_roundtrip, lemma_le48_roundtrip, u16_from_le,
    u16_to_le, u48_from_le, u48_to_le, MAX_ADDR,
};
use vstd::prelude::*;

verus! {

/// The 25-byte control unit.
#[derive(Debug, Clone, Copy, PartialEq, Eq, Structural)]
pub struct ControlUnit {
    /// business sequence number (little-endian on the wire)
    pub sequence: u16,
    /// protocol version
    pub version: ProtocolVersion,
    /// sending time label
    pub timestamp: Timestamp,
    /// source address (six bytes on the wire)
    pub source_addr: u64,
    /// destination address (six bytes on the wire)
    pub dest_addr: u64,
    /// length of the application data unit
    pub data_unit_len: u16,
    /// command byte
    pub command: Command,
}

/// Control unit fields read from 25 wire bytes.
pub open spec fn control_unit_of_bytes(b: Seq<u8>) -> ControlUnit {
    ControlUnit {
        sequence: le16(b[0], b[1]),
        version: ProtocolVersion { major: b[2], minor: b[3] },
        timestamp: timestamp_of_bytes(b.subrange(4, 10)),
        source_addr: le48(b.subrange(10, 16)),
        dest_addr: le48(b.subrange(16, 22)),
        data_unit_len: le16(b[22], b[23]),
        command: Command::spec_from_u8(b[24]),
    }
}

/// Whether the bytes hold an acceptable control unit: long enough, a valid
/// time label and a data unit length within the protocol maximum.
pub open spec fn control_unit_bytes_ok(b: Seq<u8>) -> bool {
    &&& b.len() >= 25
    &&& bytes_are_valid_timestamp(b.subrange(4, 10))
    &&& le16(b[22], b[23]) <= 1024
}

/// The outcome of reading a control unit from `b`.
pub open spec fn control_unit_parse_ok(b: Seq<u8>, r: ParseResult<ControlUnit>) -> bool {
    &&& r is Ok <==> control_unit_bytes_ok(b)
    &&& r matches Ok(cu) ==> cu == control_unit_of_bytes(b)
    &&& b.len() < 25 ==> (r matches Err(ParseError::TooShort { actual, expected }) && actual
        == b.len() && expected == 25)
    &&& b.len() >= 25 && !bytes_are_valid_timestamp(b.subrange(4, 10)) ==> (r matches Err(
        ParseError::InvalidTimestamp { field, value },
    ) && Some((field@, value)) == first_invalid_field(b[4], b[5], b[6], b[7], b[8], b[9]))
    &&& b.len() >= 25 && bytes_are_valid_timestamp(b.subrange(4, 10)) && le16(b[22], b[23])
        > 1024 ==> (r matches Err(ParseError::DataUnitTooLarge { size, max_size }) && size
        == le16(b[22], b[23]) && max_size == 1024)
}

impl ControlUnit {
    /// The 25 wire bytes.
    pub open spec fn spec_bytes(self) -> Seq<u8> {
        le16_bytes(self.sequence) + seq![self.version.major, self.version.minor]
            + self.timestamp.spec_bytes() + le48_bytes(self.source_addr) + le48_bytes(self.dest_addr)
            + le16_bytes(self.data_unit_len) + seq![self.command.spec_to_u8()]
    }

    pub open spec fn spec_is_valid(self) -> bool {
        &&& self.data_unit_len <= 1024
        &&& self.timestamp.spec_is_valid()
        &&& self.version.spec_is_valid_major()
        &&& self.source_addr <= MAX_ADDR
        &&& self.dest_addr <= MAX_ADDR
    }

    /// A control unit that survives the trip through its wire bytes.
    pub open spec fn wire_representable(self) -> bool {
        &&& self.data_unit_len <= 1024
        &&& self.timestamp.spec_is_valid()
        &&& self.source_addr <= MAX_ADDR
        &&& self.dest_addr <= MAX_ADDR
        &&& self.command.well_formed()
    }

    /// Creates a control unit, checking the data unit length and the address
    /// ranges.
    pub fn new(
        sequence: u16,
        version: ProtocolVersion,
        timestamp: Timestamp,
        source_addr: u64,
        dest_addr: u64,
        data_unit_len: u16,
        command: Command,
    ) -> (r: ParseResult<Self>)
        ensures
            r is Ok <==> (data_unit_len <= 1024 && source_addr <= MAX_ADDR && dest_addr
                <= MAX_ADDR),
            r matches Ok(cu) ==> cu == (ControlUnit {
                sequence,
                version,
                timestamp,
                source_addr,
                dest_addr,
                data_unit_len,
                command,
            }),
            data_unit_len > 1024 ==> (r matches Err(ParseError::DataUnitTooLarge { size, max_size })
                && size == data_unit_len && max_size == 1024),
            data_unit_len <= 1024 && source_addr > MAX_ADDR ==> (r matches Err(
                ParseError::ValidAddress(a, _),
            ) && a == source_addr),
            data_unit_len <= 1024 && source_addr <= MAX_ADDR && dest_addr > MAX_ADDR ==> (r matches Err(
                ParseError::ValidAddress(a, _),
            ) && a == dest_addr),
    {
        if data_unit_len as usize > MAX_DATA_UNIT_SIZE {
            return Err(
                ParseError::DataUnitTooLarge { size: data_unit_len as usize, max_size: MAX_DATA_UNIT_SIZE },
            );
        }
        if source_addr > MAX_ADDR {
            return Err(
                ParseError::ValidAddress(
                    source_addr,
                    "Address length of source exceeds maximum".to_owned(),
                ),
            );
        }
        if dest_addr > MAX_ADDR {
            return Err(
                ParseError::ValidAddress(
                    dest_addr,
                    "Address length of destination exceeds maximum".to_owned(),
                ),
            );
        }
        Ok(Self { sequence, version, timestamp, source_addr, dest_addr, data_unit_len, command })
    }

    /// Reads a control unit from its 25 wire bytes.
    pub fn from_bytes(bytes: &[u8]) -> (r: ParseResult<Self>)
        ensures
            control_unit_parse_ok(bytes@, r),
    {
        if bytes.len() < 25 {
            return Err(ParseError::TooShort { actual: bytes.len(), expected: 25 });
        }
        let sequence = u16_from_le(bytes[0], bytes[1]);
        let version = ProtocolVersion::from_bytes([bytes[2], bytes[3]]);
        let ts_bytes = &bytes[4..10];
        let timestamp = match Timestamp::from_bytes(ts_bytes) {
            Ok(t) => t,
            Err(e) => {
                return Err(e);
            },
        };
        let source_addr = u48_from_le(bytes, 10);
        let dest_addr = u48_from_le(bytes, 16);
        let data_unit_len = u16_from_le(bytes[22], bytes[23]);
        let command = Command::from_u8(bytes[24]);
        Self::new(sequence, version, timestamp, source_addr, dest_addr, data_unit_len, command)
    }

    /// The 25 wire bytes.
    pub fn to_bytes(&self) -> (r: [u8; 25])
        ensures
            r@ == self.spec_bytes(),
    {
        let seq = u16_to_le(self.sequence);
        let ver = self.version.to_bytes();
        let ts = self.timestamp.to_bytes();
        let src = u48_to_le(self.source_addr);
        let dst = u48_to_le(self.dest_addr);
        let len = u16_to_le(self.data_unit_len);
        let cmd = self.command.to_u8();
        let r = [
            seq[0],
            seq[1],
            ver[0],
            ver[1],
            ts[0],
            ts[1],
            ts[2],
            ts[3],
            ts[4],
            ts[5],
            src[0],
            src[1],
            src[2],
            src[3],
            src[4],
            src[5],
            dst[0],
            dst[1],
            dst[2],
            dst[3],
            dst[4],
            dst[5],
            len[0],
            len[1],
            cmd,
        ];
        proof {
            assert(r@ =~= self.spec_bytes());
        }
        r
    }

    /// The 25 wire bytes as a vector.
    pub fn encode(&self) -> (r: Vec<u8>)
        ensures
            r@ == self.spec_bytes(),
    {
        let b = self.to_bytes();
        let mut v: Vec<u8> = Vec::with_capacity(25);
        let mut i: usize = 0;
        while i < 25
            invariant
                i <= 25,
                b@ == self.spec_bytes(),
                v@ == b@.take(i as int),
            decreases 25 - i,
        {
            v.push(b[i]);
            i = i + 1;
            proof {
                assert(v@ =~= b@.take(i as int));
            }
        }
        proof {
            assert(b@.take(25) =~= b@);
        }
        v
    }

    /// Reads a control unit (same as `from_bytes`).
    pub fn parse(data: &[u8]) -> (r: ParseResult<Self>)
        ensures
            control_unit_parse_ok(data@, r),
    {
        Self::from_bytes(data)
    }

    /// The six wire bytes of the source address.
    pub fn source_addr_bytes(&self) -> (r: [u8; 6])
        ensures
            r@ == le48_bytes(self.source_addr),
    {
        u48_to_le(self.source_addr)
    }

    /// The six wire bytes of the destination address.
    pub fn dest_addr_bytes(&self) -> (r: [u8; 6])
        ensures
            r@ == le48_bytes(self.dest_addr),
    {
        u48_to_le(self.dest_addr)
    }

    /// Sets the source address from six wire bytes.
    pub fn set_source_addr_from_bytes(&mut self, addr_bytes: [u8; 6])
        ensures
            final(self).source_addr == le48(addr_bytes@),
            *final(self) == (ControlUnit { source_addr: le48(addr_bytes@), ..*old(self) }),
    {
        let b: &[u8] = &addr_bytes;
        proof {
            assert(b@.subrange(0, 6) =~= addr_bytes@);
        }
        self.source_addr = u48_from_le(b, 0);
    }

    /// Sets the destination address from six wire bytes.
    pub fn set_dest_addr_from_bytes(&mut self, addr_bytes: [u8; 6])
        ensures
            final(self).dest_addr == le48(addr_bytes@),
            *final(self) == (ControlUnit { dest_addr: le48(addr_bytes@), ..*old(self) }),
    {
        let b: &[u8] = &addr_bytes;
        proof {
            assert(b@.subrange(0, 6) =~= addr_bytes@);
        }
        self.dest_addr = u48_from_le(b, 0);
    }

    /// Whether the length, time label, major version and addresses are valid.
    pub fn is_valid(&self) -> (r: bool)
        ensures
            r == self.spec_is_valid(),
    {
        self.data_unit_len <= 1024 && self.timestamp.is_valid() && self.version.is_valid_major()
            && self.source_addr <= MAX_ADDR && self.dest_addr <= MAX_ADDR
    }

    /// Reply control unit: same sequence number and version, addresses
    /// swapped, no data unit, the given command, stamped with the current time.
    pub fn create_ack(&self, ack_command: Command) -> (r: Self)
        ensures
            r.sequence == self.sequence,
            r.version == self.version,
            r.source_addr == self.dest_addr,
            r.dest_addr == self.source_addr,
            r.data_unit_len == 0,
            r.command == ack_command,
            r.timestamp.spec_is_valid(),
    {
        Self {
            sequence: self.sequence,
            version: self.version,
            timestamp: Timestamp::now(),
            source_addr: self.dest_addr,
            dest_addr: self.source_addr,
            data_unit_len: 0,
            command: ack_command,
        }
    }

    /// Acknowledge reply (command 3).
    pub fn create_acknowledge(&self) -> (r: Self)
        ensures
            r.sequence == self.sequence,
            r.version == self.version,
            r.source_addr == self.dest_addr,
            r.dest_addr == self.source_addr,
            r.data_unit_len == 0,
            r.command == Command::Acknowledge,
            r.timestamp.spec_is_valid(),
    {
        self.create_ack(Command::Acknowledge)
    }

    /// Reject reply (command 6).
    pub fn create_reject(&self) -> (r: Self)
        ensures
            r.sequence == self.sequence,
            r.version == self.version,
            r.source_addr == self.dest_addr,
            r.dest_addr == self.source_addr,
            r.data_unit_len == 0,
            r.command == Command::Reject,
            r.timestamp.spec_is_valid(),
    {
        self.create_ack(Command::Reject)
    }

    /// Response control unit (command 5) announcing a data unit of the given
    /// length.
    pub fn create_response(&self, data_unit_len: u16) -> (r: Self)
        ensures
            r.sequence == self.sequence,
            r.version == self.version,
            r.source_addr == self.dest_addr,
            r.dest_addr == self.source_addr,
            r.data_unit_len == data_unit_len,
            r.command == Command::Response,
            r.timestamp.spec_is_valid(),
    {
        Self {
            sequence: self.sequence,
            version: self.version,
            timestamp: Timestamp::now(),
            source_addr: self.dest_addr,
            dest_addr: self.source_addr,
            data_unit_len,
            command: Command::Response,
        }
    }

    /// `Ok` for a valid control unit, an `InvalidValue` error naming
    /// `control_unit` otherwise.
    pub fn validate(&self) -> (r: ParseResult<()>)
        ensures
            r is Ok <==> self.spec_is_valid(),
            r matches Err(e) ==> e matches ParseError::InvalidValue { field, .. } && field@
                == "control_unit"@,
    {
        if !self.is_valid() {
            return Err(
                ParseError::InvalidValue {
                    field: "control_unit".to_owned(),
                    value: "validation failed".to_owned(),
                    reason: "控制单元验证失败".to_owned(),
                },
            );
        }
        Ok(())
    }
}

impl Default for ControlUnit {
    /// Sequence 0, the standard version, the current time, zero addresses,
    /// no data unit and the send-data command.
    fn default() -> (r: ControlUnit)
        ensures
            r.sequence == 0,
            r.version.major == 1,
            r.version.minor == 1,
            r.timestamp.spec_is_valid(),
            r.source_addr == 0,
            r.dest_addr == 0,
            r.data_unit_len == 0,
            r.command == Command::SendData,
    {
        ControlUnit {
            sequence: 0,
            version: ProtocolVersion::default(),
            timestamp: Timestamp::default(),
            source_addr: 0,
            dest_addr: 0,
            data_unit_len: 0,
            command: Command::SendData,
        }
    }
}

/// Reading back the wire bytes of a representable control unit gives the
/// control unit.
pub proof fn law_control_unit_bytes_roundtrip(cu: ControlUnit)
    requires
        cu.wire_representable(),
    ensures
        control_unit_bytes_ok(cu.spec_bytes()),
        control_unit_of_bytes(cu.spec_bytes()) == cu,
{
    let b = cu.spec_bytes();
    lemma_le16_roundtrip(cu.sequence);
    lemma_le16_roundtrip(cu.data_unit_len);
    lemma_le48_roundtrip(cu.source_addr);
    lemma_le48_roundtrip(cu.dest_addr);
    assert(b.subrange(4, 10) =~= cu.timestamp.spec_bytes());
    assert(b.subrange(10, 16) =~= le48_bytes(cu.source_addr));
    assert(b.subrange(16, 22) =~= le48_bytes(cu.dest_addr));
    assert(b[22] == le16_bytes(cu.data_unit_len)[0]);
    assert(b[23] == le16_bytes(cu.data_unit_len)[1]);
    assert(b[0] == le16_bytes(cu.sequence)[0]);
    assert(b[1] == le16_bytes(cu.sequence)[1]);
    assert(b[24] == cu.command.spec_to_u8());
    assert(timestamp_of_bytes(cu.timestamp.spec_bytes()) == cu.timestamp);
}

/// Writing back a control unit read from acceptable bytes gives those
/// 25 bytes.
pub proof fn law_control_unit_bytes_to_bytes(b: Seq<u8>)
    requires
        b.len() == 25,
        control_unit_bytes_ok(b),
    ensures
        control_unit_of_bytes(b).spec_bytes() == b,
        control_unit_of_bytes(b).wire_representable(),
{
    let cu = control_unit_of_bytes(b);
    crate::wire::lemma_le16_bytes_of_value(b[0], b[1]);
    crate::wire::lemma_le16_bytes_of_value(b[22], b[23]);
    crate::wire::lemma_le48_bytes_of_value(b.subrange(10, 16));
    crate::wire::lemma_le48_bytes_of_value(b.subrange(16, 22));
    crate::protocol::law_command_byte_roundtrip(b[24]);
    assert(cu.command.well_formed());
    assert(cu.timestamp.spec_bytes() =~= b.subrange(4, 10));
    assert(cu.spec_bytes() =~= b);
}

/// The command of a control unit is its last byte: a control unit holding
/// an acknowledge is written with byte 3 there and a reject with byte 6, and
/// bytes whose last control unit byte is 3 or 6 read as an acknowledge or a
/// reject, and as nothing else.
pub proof fn law_reply_command_bytes(c: ControlUnit, b: Seq<u8>)
    requires
        b.len() >= 25,
    ensures
        c.command == Command::Acknowledge ==> c.spec_bytes()[24] == 3,
        c.command == Command::Reject ==> c.spec_bytes()[24] == 6,
        (control_unit_of_bytes(b).command == Command::Acknowledge) <==> b[24] == 3,
        (control_unit_of_bytes(b).command == Command::Reject) <==> b[24] == 6,
{
    let cb = c.spec_bytes();
    assert(cb.len() == 25);
    assert(cb[24] == c.command.spec_to_u8());
    crate::protocol::law_command_byte_table(b[24]);
}

} // verus!
