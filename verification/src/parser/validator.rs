//! Checks on raw frame bytes: framing markers and length, checksum,
//! protocol version and declared data unit length.
use crate::error::{ParseError, ParseResult};
use crate::frame::checksum::{calculate_packet_checksum, spec_packet_checksum, verify_checksum};
use crate::info_object::version::version_text;
use crate::text::{push_char, push_decimal};
use crate::protocol::{CONTROL_UNIT_LENGTH, MAX_DATA_UNIT_SIZE, MAX_PACKET_SIZE, MIN_PACKET_SIZE};
use vstd::prelude::*;

verus! {

/// The outcome of checking the framing of `b`, check by check.
pub open spec fn frame_format_ok(b: Seq<u8>, r: ParseResult<()>) -> bool {
    let n = b.len() as int;
    let start_ok = b[0] == 0x40 && b[1] == 0x40;
    let end_ok = b[n - 2] == 0x23 && b[n - 1] == 0x23;
    &&& r is Ok <==> (n >= 30 && start_ok && end_ok && n <= 1054)
    &&& n < 30 ==> (r matches Err(ParseError::TooShort { actual, expected }) && actual == n
        && expected == 30)
    &&& n >= 30 && !start_ok ==> (r matches Err(ParseError::InvalidFrameStart { expected, found })
        && expected@ == seq![0x40u8, 0x40u8] && found@ == seq![b[0], b[1]])
    &&& n >= 30 && start_ok && !end_ok ==> (r matches Err(
        ParseError::InvalidFrameEnd { expected, found },
    ) && expected@ == seq![0x23u8, 0x23u8] && found@ == seq![b[n - 2], b[n - 1]])
    &&& n > 1054 && start_ok && end_ok ==> (r matches Err(
        ParseError::DataUnitTooLarge { size, max_size },
    ) && size == n && max_size == 1054)
}

/// The outcome of checking the checksum byte of a frame (third from the
/// end) against the bytes before it.
pub open spec fn frame_checksum_ok(b: Seq<u8>, r: ParseResult<()>) -> bool {
    let n = b.len() as int;
    let body = b.subrange(0, n - 3);
    &&& r is Ok <==> (n >= 4 && spec_packet_checksum(body) == Some(b[n - 3]))
    &&& n < 4 ==> (r matches Err(ParseError::TooShort { actual, expected }) && actual == n
        && expected == 4)
    &&& n >= 4 && spec_packet_checksum(body) != Some(b[n - 3]) ==> (r matches Err(
        ParseError::ChecksumMismatch { expected, actual },
    ) && expected == b[n - 3] && actual == (match spec_packet_checksum(body) {
        Some(c) => c,
        None => 0,
    }))
}

/// The version read from a control unit: the major version at byte 2 and
/// the user (minor) version at byte 3, after the sequence number.
pub open spec fn control_unit_version(b: Seq<u8>) -> (u8, u8) {
    (b[2], b[3])
}

/// Whether a version is accepted: major 1 to 99, minor at most 99.
pub open spec fn version_supported(major: u8, minor: u8) -> bool {
    1 <= major <= 99 && minor <= 99
}

/// Checks frame bytes.
#[derive(Debug, Clone, Copy, PartialEq, Eq, Structural)]
pub struct DataValidator;

impl DataValidator {
    /// Creates a validator.
    pub fn new() -> (r: Self)
        ensures
            r == DataValidator,
    {
        DataValidator
    }

    /// Checks, in order: at least 30 bytes, the start marker `@@`, the end
    /// marker `##`, at most 1054 bytes.
    pub fn validate_frame_format(&self, data: &[u8]) -> (r: ParseResult<()>)
        ensures
            frame_format_ok(data@, r),
    {
        let n = data.len();
        if n < MIN_PACKET_SIZE {
            return Err(ParseError::TooShort { actual: n, expected: MIN_PACKET_SIZE });
        }
        if data[0] != 0x40 || data[1] != 0x40 {
            let mut expected: Vec<u8> = Vec::new();
            expected.push(0x40);
            expected.push(0x40);
            let mut found: Vec<u8> = Vec::new();
            found.push(data[0]);
            found.push(data[1]);
            proof {
                assert(expected@ =~= seq![0x40u8, 0x40u8]);
                assert(found@ =~= seq![data@[0], data@[1]]);
            }
            return Err(ParseError::InvalidFrameStart { expected, found });
        }
        if data[n - 2] != 0x23 || data[n - 1] != 0x23 {
            let mut expected: Vec<u8> = Vec::new();
            expected.push(0x23);
            expected.push(0x23);
            let mut found: Vec<u8> = Vec::new();
            found.push(data[n - 2]);
            found.push(data[n - 1]);
            proof {
                assert(expected@ =~= seq![0x23u8, 0x23u8]);
                assert(found@ =~= seq![data@[n - 2], data@[n - 1]]);
            }
            return Err(ParseError::InvalidFrameEnd { expected, found });
        }
        if n > MAX_PACKET_SIZE {
            return Err(ParseError::DataUnitTooLarge { size: n, max_size: MAX_PACKET_SIZE });
        }
        Ok(())
    }

    /// Checks the checksum byte (third from the end) against the checksum of
    /// the bytes before it, without the start marker.
    pub fn validate_checksum(&self, data: &[u8]) -> (r: ParseResult<()>)
        ensures
            frame_checksum_ok(data@, r),
    {
        let n = data.len();
        if n < 4 {
            return Err(ParseError::TooShort { actual: n, expected: 4 });
        }
        let expected_checksum = data[n - 3];
        let body = &data[0..n - 3];
        if verify_checksum(body, expected_checksum) {
            Ok(())
        } else {
            let calculated = match calculate_packet_checksum(body) {
                Some(c) => c,
                None => 0,
            };
            Err(ParseError::ChecksumMismatch { expected: expected_checksum, actual: calculated })
        }
    }

    /// Checks the protocol version of a control unit, read from its bytes 2
    /// and 3; refuses a control unit shorter than 25 bytes.
    pub fn validate_protocol_version(&self, data: &[u8]) -> (r: ParseResult<()>)
        ensures
            r is Ok <==> (data@.len() >= 25 && version_supported(
                control_unit_version(data@).0,
                control_unit_version(data@).1,
            )),
            data@.len() < 25 ==> (r matches Err(ParseError::InsufficientData { expected, actual })
                && expected == 25 && actual == data@.len()),
            data@.len() >= 25 && !version_supported(
                control_unit_version(data@).0,
                control_unit_version(data@).1,
            ) ==> (r matches Err(ParseError::UnsupportedVersion { version }) && version@
                == version_text(control_unit_version(data@).0, control_unit_version(data@).1)),
    {
        if data.len() < CONTROL_UNIT_LENGTH {
            return Err(ParseError::InsufficientData { expected: CONTROL_UNIT_LENGTH, actual: data.len() });
        }
        let major = data[2];
        let minor = data[3];
        if major == 0 || major > 99 || minor > 99 {
            let mut version = String::new();
            push_decimal(&mut version, major as u64);
            push_char(&mut version, '.');
            push_decimal(&mut version, minor as u64);
            proof {
                assert(version@ =~= version_text(major, minor));
            }
            return Err(ParseError::UnsupportedVersion { version });
        }
        Ok(())
    }

    /// Checks that the declared data unit length equals the data's length
    /// and is at most 1024.
    pub fn validate_data_unit_length(&self, declared_length: u16, actual_data: &[u8]) -> (r: ParseResult<()>)
        ensures
            r is Ok <==> (declared_length == actual_data@.len() && declared_length <= 1024),
            declared_length != actual_data@.len() ==> (r matches Err(
                ParseError::DataUnitLengthMismatch { declared, actual },
            ) && declared == declared_length && actual == actual_data@.len()),
            declared_length == actual_data@.len() && declared_length > 1024 ==> (r matches Err(
                ParseError::DataUnitTooLarge { size, max_size },
            ) && size == declared_length && max_size == 1024),
    {
        if declared_length as usize != actual_data.len() {
            return Err(
                ParseError::DataUnitLengthMismatch {
                    declared: declared_length as usize,
                    actual: actual_data.len(),
                },
            );
        }
        if declared_length as usize > MAX_DATA_UNIT_SIZE {
            return Err(
                ParseError::DataUnitTooLarge { size: declared_length as usize, max_size: MAX_DATA_UNIT_SIZE },
            );
        }
        Ok(())
    }

    /// Checks the framing, then the checksum, then the protocol version of
    /// the control unit (bytes 2 to 27).
    pub fn validate_complete_frame(&self, data: &[u8]) -> (r: ParseResult<()>)
        ensures
            r is Ok <==> (frame_format_ok(data@, Ok(())) && frame_checksum_ok(data@, Ok(()))
                && version_supported(
                control_unit_version(data@.subrange(2, 27)).0,
                control_unit_version(data@.subrange(2, 27)).1,
            )),
            !frame_format_ok(data@, Ok(())) ==> (r matches Err(e) && frame_format_ok(data@, Err(e))),
            frame_format_ok(data@, Ok(())) && !frame_checksum_ok(data@, Ok(())) ==> (r matches Err(e)
                && frame_checksum_ok(data@, Err(e))),
    {
        match self.validate_frame_format(data) {
            Ok(()) => {},
            Err(e) => {
                return Err(e);
            },
        }
        match self.validate_checksum(data) {
            Ok(()) => {},
            Err(e) => {
                return Err(e);
            },
        }
        if data.len() >= 2 + CONTROL_UNIT_LENGTH {
            let cu = &data[2..2 + CONTROL_UNIT_LENGTH];
            match self.validate_protocol_version(cu) {
                Ok(()) => {},
                Err(e) => {
                    return Err(e);
                },
            }
        }
        Ok(())
    }
}

impl Default for DataValidator {
    fn default() -> (r: Self)
        ensures
            r == DataValidator,
    {
        Self::new()
    }
}

} // verus!
