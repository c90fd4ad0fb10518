//! A complete GB26875 packet: start marker `@@`, 25-byte control unit,
//! optional application data unit, checksum byte and end marker `##`.
use crate::error::{EncodeError, EncodeResult, ParseError, ParseResult};
use crate::frame::checksum::{calculate_checksum, checksum_of};
use crate::frame::header::{
    control_unit_bytes_ok, control_unit_of_bytes, control_unit_parse_ok,
    law_control_unit_bytes_roundtrip, ControlUnit,
};
use crate::protocol::{Command, MAX_DATA_UNIT_SIZE};
use crate::wire::append_bytes;
use vstd::prelude::*;

verus! {

/// A GB26875 packet.
#[derive(Debug, Clone, PartialEq, Eq)]
pub struct Packet {
    /// the control unit
    pub control_unit: ControlUnit,
    /// the application data unit, when there is one
    pub data_unit: Option<Vec<u8>>,
}

/// Control unit of a frame: the 25 bytes after the start marker.
pub open spec fn frame_control_unit(b: Seq<u8>) -> ControlUnit {
    control_unit_of_bytes(b.subrange(2, 27))
}

/// Declared data unit length of a frame.
pub open spec fn frame_data_len(b: Seq<u8>) -> int {
    frame_control_unit(b).data_unit_len as int
}

/// Whether `b` begins with a complete, well-formed packet: start marker,
/// acceptable control unit, the declared data unit, a matching checksum and
/// the end marker.
pub open spec fn packet_bytes_ok(b: Seq<u8>) -> bool {
    let n = frame_data_len(b);
    &&& b.len() >= 30
    &&& b[0] == 0x40 && b[1] == 0x40
    &&& control_unit_bytes_ok(b.subrange(2, 27))
    &&& 30 + n <= b.len()
    &&& b[27 + n] == checksum_of(b.subrange(2, 27 + n))
    &&& b[28 + n] == 0x23 && b[29 + n] == 0x23
}

/// The data unit a frame carries: none when the declared length is zero.
pub open spec fn frame_data_unit(b: Seq<u8>) -> Option<Seq<u8>> {
    let n = frame_data_len(b);
    if n == 0 {
        None
    } else {
        Some(b.subrange(27, 27 + n))
    }
}

/// The outcome of reading a packet from `b`, error by error in the order in
/// which they are checked.
pub open spec fn packet_parse_ok(b: Seq<u8>, r: ParseResult<Packet>) -> bool {
    let n = frame_data_len(b);
    let start_ok = b.len() >= 30 && b[0] == 0x40 && b[1] == 0x40;
    let cu_ok = start_ok && control_unit_bytes_ok(b.subrange(2, 27));
    let len_ok = cu_ok && 30 + n <= b.len();
    let sum_ok = len_ok && b[27 + n] == checksum_of(b.subrange(2, 27 + n));
    &&& r is Ok <==> packet_bytes_ok(b)
    &&& r matches Ok(p) ==> p.control_unit == frame_control_unit(b) && p.spec_data()
        == frame_data_unit(b)
    &&& b.len() < 30 ==> (r matches Err(ParseError::TooShort { actual, expected }) && actual
        == b.len() && expected == 30)
    &&& b.len() >= 30 && !(b[0] == 0x40 && b[1] == 0x40) ==> (r matches Err(
        ParseError::InvalidStartMarker(x, y),
    ) && x == b[0] && y == b[1])
    &&& start_ok && !control_unit_bytes_ok(b.subrange(2, 27)) ==> (r matches Err(e)
        && control_unit_parse_ok(b.subrange(2, 27), Err(e)))
    &&& cu_ok && 30 + n > b.len() ==> (r matches Err(ParseError::TooShort { actual, expected })
        && actual == b.len() && expected == 30 + n)
    &&& len_ok && b[27 + n] != checksum_of(b.subrange(2, 27 + n)) ==> (r matches Err(
        ParseError::ChecksumMismatch { expected, actual },
    ) && expected == b[27 + n] && actual == checksum_of(b.subrange(2, 27 + n)))
    &&& sum_ok && !(b[28 + n] == 0x23 && b[29 + n] == 0x23) ==> (r matches Err(
        ParseError::InvalidEndMarker(x, y),
    ) && x == b[28 + n] && y == b[29 + n])
}

impl Packet {
    /// The data unit as a byte sequence, when there is one.
    pub open spec fn spec_data(self) -> Option<Seq<u8>> {
        match self.data_unit {
            Some(d) => Some(d@),
            None => None,
        }
    }

    /// The data unit bytes, empty when there is none.
    pub open spec fn data_bytes(self) -> Seq<u8> {
        match self.data_unit {
            Some(d) => d@,
            None => Seq::empty(),
        }
    }

    /// The wire bytes: start marker, control unit, data unit, checksum of
    /// control unit and data unit, end marker.
    pub open spec fn spec_bytes(self) -> Seq<u8> {
        let body = self.control_unit.spec_bytes() + self.data_bytes();
        seq![0x40u8, 0x40u8] + body + seq![checksum_of(body), 0x23u8, 0x23u8]
    }

    /// A packet whose wire bytes read back as itself: a representable control
    /// unit whose length field gives the data unit's length, and a data unit
    /// present exactly when that length is not zero.
    pub open spec fn wire_representable(self) -> bool {
        &&& self.control_unit.wire_representable()
        &&& self.data_bytes().len() == self.control_unit.data_unit_len
        &&& (self.data_unit is None <==> self.control_unit.data_unit_len == 0)
    }

    /// Creates a packet, setting the control unit's length field to the data
    /// unit's length; refuses a data unit longer than 1024 bytes.
    pub fn new(control_unit: ControlUnit, data_unit: Option<Vec<u8>>) -> (r: EncodeResult<Self>)
        ensures
            r is Ok <==> (match data_unit {
                Some(d) => d@.len() <= 1024,
                None => true,
            }),
            r matches Ok(p) ==> p.data_unit == data_unit && p.control_unit == (ControlUnit {
                data_unit_len: p.data_bytes().len() as u16,
                ..control_unit
            }),
            r matches Err(e) ==> e matches EncodeError::DataUnitTooLarge { size, max_size } && (
            data_unit matches Some(d) && size == d@.len()) && max_size == 1024,
    {
        let mut control_unit = control_unit;
        let data_len: usize = match &data_unit {
            Some(d) => d.len(),
            None => 0,
        };
        if data_len > MAX_DATA_UNIT_SIZE {
            return Err(EncodeError::DataUnitTooLarge { size: data_len, max_size: MAX_DATA_UNIT_SIZE });
        }
        control_unit.data_unit_len = data_len as u16;
        Ok(Packet { control_unit, data_unit })
    }

    /// Creates a packet carrying `data`; refuses more than 1024 bytes.
    pub fn with_data(control_unit: ControlUnit, data: Vec<u8>) -> (r: EncodeResult<Self>)
        ensures
            r is Ok <==> data@.len() <= 1024,
            r matches Ok(p) ==> p.data_unit == Some(data) && p.control_unit == (ControlUnit {
                data_unit_len: data@.len() as u16,
                ..control_unit
            }),
            r matches Err(e) ==> e matches EncodeError::DataUnitTooLarge { size, max_size } && size
                == data@.len() && max_size == 1024,
    {
        let mut control_unit = control_unit;
        if data.len() > MAX_DATA_UNIT_SIZE {
            return Err(EncodeError::DataUnitTooLarge { size: data.len(), max_size: MAX_DATA_UNIT_SIZE });
        }
        control_unit.data_unit_len = data.len() as u16;
        Ok(Packet { control_unit, data_unit: Some(data) })
    }

    /// Total length on the wire announced by the control unit: 30 bytes of
    /// framing plus the data unit length.
    pub fn len(&self) -> (r: usize)
        ensures
            r == 30 + self.control_unit.data_unit_len,
    {
        2 + 25 + self.control_unit.data_unit_len as usize + 1 + 2
    }

    /// Whether the packet has no data unit.
    pub fn is_empty(&self) -> (r: bool)
        ensures
            r == (self.data_unit is None || self.control_unit.data_unit_len == 0),
    {
        self.data_unit.is_none() || self.control_unit.data_unit_len == 0
    }

    /// The data unit, when there is one.
    pub fn data_unit(&self) -> (r: Option<&Vec<u8>>)
        ensures
            r is None <==> self.data_unit is None,
            r matches Some(d) ==> self.data_unit == Some(*d),
    {
        match &self.data_unit {
            Some(d) => Some(d),
            None => None,
        }
    }

    /// The data unit for changing in place, when there is one; the length
    /// field is left as it is.
    pub fn data_unit_mut(&mut self) -> (r: Option<&mut Vec<u8>>)
        ensures
            r is None <==> old(self).data_unit is None,
            r matches Some(d) ==> old(self).data_unit == Some(*d) && final(self).data_unit == Some(
                *final(d),
            ),
            final(self).control_unit == old(self).control_unit,
    {
        match &mut self.data_unit {
            Some(d) => Some(d),
            None => None,
        }
    }

    /// Replaces the data unit and sets the length field to its length;
    /// refuses more than 1024 bytes and then leaves the packet unchanged.
    pub fn set_data_unit(&mut self, data_unit: Option<Vec<u8>>) -> (r: EncodeResult<()>)
        ensures
            r is Ok <==> (match data_unit {
                Some(d) => d@.len() <= 1024,
                None => true,
            }),
            r is Ok ==> final(self).data_unit == data_unit && final(self).control_unit == (
            ControlUnit { data_unit_len: final(self).data_bytes().len() as u16, ..old(self).control_unit }),
            r is Err ==> *final(self) == *old(self),
            r matches Err(e) ==> e matches EncodeError::DataUnitTooLarge { size, max_size } && (
            data_unit matches Some(d) && size == d@.len()) && max_size == 1024,
    {
        let data_len: usize = match &data_unit {
            Some(d) => d.len(),
            None => 0,
        };
        if data_len > MAX_DATA_UNIT_SIZE {
            return Err(EncodeError::DataUnitTooLarge { size: data_len, max_size: MAX_DATA_UNIT_SIZE });
        }
        self.control_unit.data_unit_len = data_len as u16;
        self.data_unit = data_unit;
        Ok(())
    }

    /// A packet without data unit; the length field is set to zero.
    pub fn empty(control_unit: ControlUnit) -> (r: Self)
        ensures
            r.data_unit is None,
            r.control_unit == (ControlUnit { data_unit_len: 0, ..control_unit }),
    {
        let mut control_unit = control_unit;
        control_unit.data_unit_len = 0;
        Packet { control_unit, data_unit: None }
    }

    /// The wire bytes of the packet; refuses a data unit longer than 1024
    /// bytes.
    pub fn encode(&self) -> (r: EncodeResult<Vec<u8>>)
        ensures
            r is Ok <==> self.data_bytes().len() <= 1024,
            r matches Ok(v) ==> v@ == self.spec_bytes(),
            r matches Err(e) ==> e matches EncodeError::DataUnitTooLarge { size, max_size } && size
                == self.data_bytes().len() && max_size == 1024,
    {
        if let Some(data) = &self.data_unit {
            if data.len() > MAX_DATA_UNIT_SIZE {
                return Err(
                    EncodeError::DataUnitTooLarge { size: data.len(), max_size: MAX_DATA_UNIT_SIZE },
                );
            }
        }
        let mut buf: Vec<u8> = Vec::with_capacity(self.len());
        buf.push(0x40);
        buf.push(0x40);
        let control_bytes = self.control_unit.to_bytes();
        append_bytes(&mut buf, &control_bytes);
        let empty: Vec<u8> = Vec::new();
        let data: &[u8] = match &self.data_unit {
            Some(d) => d.as_slice(),
            None => empty.as_slice(),
        };
        append_bytes(&mut buf, data);
        let checksum = calculate_checksum(&control_bytes, data);
        buf.push(checksum);
        buf.push(0x23);
        buf.push(0x23);
        proof {
            assert(data@ == self.data_bytes());
            assert(buf@ =~= self.spec_bytes());
        }
        Ok(buf)
    }

    /// Reads a packet from the front of `data`, checking in order the length,
    /// the start marker, the control unit, the data unit length, the checksum
    /// and the end marker.
    pub fn from_bytes(data: &[u8]) -> (r: ParseResult<Self>)
        ensures
            packet_parse_ok(data@, r),
    {
        match Self::try_parse(data) {
            Ok((p, _)) => Ok(p),
            Err(e) => Err(e),
        }
    }

    /// Reads a packet (same as `from_bytes`).
    pub fn parse(data: &[u8]) -> (r: ParseResult<Self>)
        ensures
            packet_parse_ok(data@, r),
    {
        Self::from_bytes(data)
    }

    /// Reads a packet from the front of `data` and says how many bytes it
    /// took: 30 plus the data unit length.
    pub fn try_parse(data: &[u8]) -> (r: ParseResult<(Self, usize)>)
        ensures
            packet_parse_ok(
                data@,
                match r {
                    Ok((p, _)) => Ok(p),
                    Err(e) => Err(e),
                },
            ),
            r matches Ok((_, used)) ==> used == 30 + frame_data_len(data@),
    {
        if data.len() < 30 {
            return Err(ParseError::TooShort { actual: data.len(), expected: 30 });
        }
        if data[0] != 0x40 || data[1] != 0x40 {
            return Err(ParseError::InvalidStartMarker(data[0], data[1]));
        }
        let cu_bytes = &data[2..27];
        let control_unit = match ControlUnit::from_bytes(cu_bytes) {
            Ok(cu) => cu,
            Err(e) => {
                return Err(e);
            },
        };
        let n = control_unit.data_unit_len as usize;
        let total = 30 + n;
        if data.len() < total {
            return Err(ParseError::TooShort { actual: data.len(), expected: total });
        }
        let data_unit = if n > 0 {
            Some(vstd::slice::slice_to_vec(&data[27..27 + n]))
        } else {
            None
        };
        let expected_checksum = data[27 + n];
        let calculated = calculate_checksum(cu_bytes, &data[27..27 + n]);
        proof {
            assert(cu_bytes@ + data@.subrange(27, 27 + n as int) =~= data@.subrange(
                2,
                27 + n as int,
            ));
        }
        if expected_checksum != calculated {
            return Err(
                ParseError::ChecksumMismatch { expected: expected_checksum, actual: calculated },
            );
        }
        if data[28 + n] != 0x23 || data[29 + n] != 0x23 {
            return Err(ParseError::InvalidEndMarker(data[28 + n], data[29 + n]));
        }
        Ok((Packet { control_unit, data_unit }, total))
    }

    /// `Ok` when the control unit is valid and the length field equals the
    /// data unit's length; the control unit's error, or `DataLengthMismatch`.
    pub fn validate(&self) -> (r: ParseResult<()>)
        ensures
            r is Ok <==> (self.control_unit.spec_is_valid() && self.data_bytes().len()
                == self.control_unit.data_unit_len),
            self.control_unit.spec_is_valid() && self.data_bytes().len()
                != self.control_unit.data_unit_len ==> (r matches Err(
                ParseError::DataLengthMismatch { expected, actual },
            ) && expected == self.control_unit.data_unit_len && actual == self.data_bytes().len()),
            !self.control_unit.spec_is_valid() ==> (r matches Err(ParseError::InvalidValue { .. })),
    {
        match self.control_unit.validate() {
            Ok(()) => {},
            Err(e) => {
                return Err(e);
            },
        }
        let actual_len: usize = match &self.data_unit {
            Some(d) => d.len(),
            None => 0,
        };
        if actual_len != self.control_unit.data_unit_len as usize {
            return Err(
                ParseError::DataLengthMismatch {
                    expected: self.control_unit.data_unit_len as usize,
                    actual: actual_len,
                },
            );
        }
        if actual_len > MAX_DATA_UNIT_SIZE {
            return Err(ParseError::DataUnitTooLarge { size: actual_len, max_size: MAX_DATA_UNIT_SIZE });
        }
        Ok(())
    }

    /// Response packet carrying `response_data`: the control unit's response
    /// reply with the data unit's length.
    pub fn create_response(&self, response_data: Option<Vec<u8>>) -> (r: EncodeResult<Self>)
        ensures
            r is Ok <==> (match response_data {
                Some(d) => d@.len() <= 1024,
                None => true,
            }),
            r matches Ok(p) ==> {
                &&& p.data_unit == response_data
                &&& p.control_unit.sequence == self.control_unit.sequence
                &&& p.control_unit.version == self.control_unit.version
                &&& p.control_unit.source_addr == self.control_unit.dest_addr
                &&& p.control_unit.dest_addr == self.control_unit.source_addr
                &&& p.control_unit.data_unit_len == p.data_bytes().len()
                &&& p.control_unit.command == Command::Response
                &&& p.control_unit.timestamp.spec_is_valid()
            },
            r matches Err(e) ==> e matches EncodeError::DataUnitTooLarge { .. },
    {
        let data_len: usize = match &response_data {
            Some(d) => d.len(),
            None => 0,
        };
        let response_control_unit = self.control_unit.create_response(data_len as u16);
        Self::new(response_control_unit, response_data)
    }

    /// Acknowledge packet (command 3) without data unit.
    pub fn create_acknowledge(&self) -> (r: Self)
        ensures
            r.data_unit is None,
            r.control_unit.sequence == self.control_unit.sequence,
            r.control_unit.version == self.control_unit.version,
            r.control_unit.source_addr == self.control_unit.dest_addr,
            r.control_unit.dest_addr == self.control_unit.source_addr,
            r.control_unit.data_unit_len == 0,
            r.control_unit.command == Command::Acknowledge,
            r.control_unit.timestamp.spec_is_valid(),
    {
        Packet::empty(self.control_unit.create_acknowledge())
    }

    /// Reject packet (command 6) without data unit.
    pub fn create_reject(&self) -> (r: Self)
        ensures
            r.data_unit is None,
            r.control_unit.sequence == self.control_unit.sequence,
            r.control_unit.version == self.control_unit.version,
            r.control_unit.source_addr == self.control_unit.dest_addr,
            r.control_unit.dest_addr == self.control_unit.source_addr,
            r.control_unit.data_unit_len == 0,
            r.control_unit.command == Command::Reject,
            r.control_unit.timestamp.spec_is_valid(),
    {
        Packet::empty(self.control_unit.create_reject())
    }

    /// Whether the packet is a heartbeat: command byte 2 with an application
    /// data unit length of 0.
    pub fn is_heartbeat(&self) -> (r: bool)
        ensures
            r == (self.control_unit.command.spec_to_u8() == 2 && self.control_unit.data_unit_len == 0),
    {
        self.control_unit.command.to_u8() == 2 && self.control_unit.data_unit_len == 0
    }

    /// Whether the command is acknowledge.
    pub fn is_acknowledge(&self) -> (r: bool)
        ensures
            r == (self.control_unit.command == Command::Acknowledge),
    {
        match self.control_unit.command {
            Command::Acknowledge => true,
            _ => false,
        }
    }

    /// Whether the command is reject.
    pub fn is_reject(&self) -> (r: bool)
        ensures
            r == (self.control_unit.command == Command::Reject),
    {
        match self.control_unit.command {
            Command::Reject => true,
            _ => false,
        }
    }
}

/// Reading back the wire bytes of a representable packet gives the packet:
/// its control unit and its data unit.
#[verifier::spinoff_prover]
pub proof fn law_packet_bytes_roundtrip(p: Packet)
    requires
        p.wire_representable(),
    ensures
        packet_bytes_ok(p.spec_bytes()),
        frame_control_unit(p.spec_bytes()) == p.control_unit,
        frame_data_unit(p.spec_bytes()) == p.spec_data(),
{
    let b = p.spec_bytes();
    let cub = p.control_unit.spec_bytes();
    let d = p.data_bytes();
    let n = d.len() as int;
    let body = cub + d;
    law_control_unit_bytes_roundtrip(p.control_unit);
    assert(cub.len() == 25);
    assert(b.len() == 30 + n);
    assert(b.subrange(2, 27) =~= cub);
    assert(frame_data_len(b) == n);
    assert(b.subrange(2, 27 + n) =~= body);
    assert(b.subrange(27, 27 + n) =~= d);
    assert(b[27 + n] == checksum_of(body));
    assert(b[28 + n] == 0x23 && b[29 + n] == 0x23);
    assert(b[0] == 0x40 && b[1] == 0x40);
    if p.data_unit is None {
        assert(d =~= Seq::<u8>::empty());
    }
}

/// Whatever `from_bytes` accepts, `encode` writes back byte for byte: the
/// packet read from a well-formed frame encodes to that frame's bytes.
#[verifier::spinoff_prover]
pub proof fn law_packet_parse_encode(b: Seq<u8>, p: Packet)
    requires
        packet_parse_ok(b, Ok(p)),
    ensures
        p.spec_bytes() == b.subrange(0, 30 + frame_data_len(b)),
{
    let n = frame_data_len(b);
    let cub = b.subrange(2, 27);
    assert(packet_bytes_ok(b));
    assert(p.control_unit == control_unit_of_bytes(cub));
    assert(p.spec_data() == frame_data_unit(b));
    crate::frame::header::law_control_unit_bytes_to_bytes(cub);
    assert(p.control_unit.spec_bytes() == cub);
    assert(p.data_bytes() =~= b.subrange(27, 27 + n));
    let body = cub + b.subrange(27, 27 + n);
    assert(body =~= b.subrange(2, 27 + n));
    assert(p.spec_bytes() =~= b.subrange(0, 30 + n));
}

impl Default for Packet {
    /// A packet with the default control unit and no data unit.
    fn default() -> (r: Packet)
        ensures
            r.control_unit.sequence == 0,
            r.control_unit.version.major == 1,
            r.control_unit.version.minor == 1,
            r.control_unit.timestamp.spec_is_valid(),
            r.control_unit.source_addr == 0,
            r.control_unit.dest_addr == 0,
            r.control_unit.data_unit_len == 0,
            r.control_unit.command == Command::SendData,
            r.data_unit is None,
    {
        Packet { control_unit: ControlUnit::default(), data_unit: None }
    }
}

} // verus!
