//! Error values of parsing, encoding and extension registration.
use vstd::prelude::*;

verus! {

/// Error while parsing bytes into protocol values.
#[allow(inconsistent_fields)]
#[derive(Debug, Clone)]
pub enum ParseError {
    /// address out of the six-byte range
    ValidAddress(u64, String),
    /// input shorter than the structure needs
    TooShort { actual: usize, expected: usize },
    /// not enough data for the next field
    InsufficientData { expected: usize, actual: usize },
    /// start marker is not `0x40 0x40`
    InvalidStartMarker(u8, u8),
    /// frame does not begin with the start marker
    InvalidFrameStart { expected: Vec<u8>, found: Vec<u8> },
    /// end marker is not `0x23 0x23`
    InvalidEndMarker(u8, u8),
    /// the byte where the end marker belongs is wrong
    InvalidEndByte { expected: u8, actual: u8 },
    /// frame does not end with the end marker
    InvalidFrameEnd { expected: Vec<u8>, found: Vec<u8> },
    /// checksum error
    Checksum,
    /// checksum byte differs from the computed one
    ChecksumMismatch { expected: u8, actual: u8 },
    /// data unit longer than allowed
    DataUnitTooLarge { size: usize, max_size: usize },
    /// data length differs from the declared one
    DataLengthMismatch { expected: usize, actual: usize },
    /// declared data unit length differs from the data present
    DataUnitLengthMismatch { declared: usize, actual: usize },
    /// data has the wrong length
    InvalidDataLength { actual: usize, expected: usize },
    /// a field holds a value the protocol does not allow
    InvalidValue { field: String, value: String, reason: String },
    /// a timestamp field is out of range
    InvalidTimestamp { field: String, value: u8 },
    /// a timestamp is invalid for the given reason
    InvalidTimestampReason { reason: String },
    /// protocol version not supported
    UnsupportedVersion { version: String },
    /// bytes are not valid in the named text encoding
    InvalidEncoding { encoding: String, reason: String },
    /// the named text encoding is not supported
    UnsupportedEncoding { encoding: String },
    /// input larger than the decoder accepts
    BufferTooLarge { max_size: usize, actual_size: usize },
    /// frame larger than the codec accepts
    FrameTooLarge { max_size: usize, actual_size: usize },
    /// length field width the codec cannot read
    InvalidLengthFieldSize { size: usize },
    /// boolean byte other than 0 or 1
    InvalidBooleanValue { value: u8 },
    /// analog type code not defined
    InvalidAnalogType(u8),
    /// enumeration byte not defined
    InvalidEnumValue { value: u8, enum_name: String, reason: String },
    /// packet could not be assembled
    InvalidPacket { reason: String },
    /// text encoding error
    StringEncoding(String),
    /// deserialization error
    DeserializationError { message: String },
    /// transport error, carried as text
    IoError(String),
    /// other error
    Custom(String),
}

/// Error while encoding protocol values into bytes.
#[allow(inconsistent_fields)]
#[derive(Debug, Clone)]
pub enum EncodeError {
    /// data unit longer than allowed
    DataUnitTooLarge { size: usize, max_size: usize },
    /// data longer than allowed
    DataTooLarge { size: usize, max_size: usize },
    /// a field holds a value the protocol does not allow
    InvalidValue { field: String, value: String, reason: String },
    /// text encoding error
    StringEncoding(String),
    /// string longer than allowed
    StringTooLong { len: usize, max: usize },
    /// serialization error
    Serialization { message: String },
    /// conversion between types failed
    TypeConversion(String),
    /// no encoder for the data unit type
    UnsupportedDataUnit { data_unit_type: u8, reason: String },
    /// transport error, carried as text
    IoError(String),
}

/// Error of the extension mechanism.
#[derive(Debug, Clone)]
pub enum ExtensionError {
    /// type flag outside 128-254
    InvalidTypeFlag(u8),
    /// type already registered
    AlreadyRegistered { type_id: u8 },
    /// type not registered
    NotFound { type_id: u8 },
    /// the extension parser failed
    ParseFailed { type_id: u8, error: String },
    /// registry lock error
    RegistryLockError,
    /// registration rejected
    ValidationError { reason: String },
}

/// Result of parsing.
pub type ParseResult<T> = Result<T, ParseError>;

/// Result of encoding.
pub type EncodeResult<T> = Result<T, EncodeError>;

/// Result of the extension mechanism.
pub type ExtensionResult<T> = Result<T, ExtensionError>;

/// `InvalidValue` parse error for `field`.
pub fn invalid_value(field: &str, value: String, reason: &str) -> (e: ParseError)
    ensures
        e matches ParseError::InvalidValue { field: f, value: v, .. } && f@ == field@ && v@
            == value@,
{
    ParseError::InvalidValue { field: field.to_owned(), value, reason: reason.to_owned() }
}

/// `InvalidValue` encode error for `field`.
pub fn encode_invalid_value(field: &str, value: String, reason: &str) -> (e: EncodeError)
    ensures
        e matches EncodeError::InvalidValue { field: f, value: v, .. } && f@ == field@ && v@
            == value@,
{
    EncodeError::InvalidValue { field: field.to_owned(), value, reason: reason.to_owned() }
}

} // verus!
