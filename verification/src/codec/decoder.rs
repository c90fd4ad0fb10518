//! General decoder: packets, data units and primitive values (text,
//! integers, date-time bytes, addresses, flags), with a strict mode that
//! checks the values' ranges.
use crate::codec::data_unit_codec::{codec_decode_ok, DataUnitCodec};
use crate::codec::packet_codec::{packet_codec_decode_ok, PacketCodec};
use crate::codec::traits::Decoder as DecoderTrait;
use crate::data_unit::GenericDataUnit;
use crate::error::{ParseError, ParseResult};
use crate::frame::packet::{packet_parse_ok, Packet};
use crate::text::{decimal_text, push_decimal, utf8_error_message, utf8_str};
use crate::wire::{le16, le16_bytes, le32, u16_from_le, u32_from_le};
use vstd::prelude::*;

verus! {

/// Settings of a decoder.
#[derive(Debug, Clone)]
pub struct DecoderConfig {
    /// whether values are checked against their ranges
    pub strict_mode: bool,
    /// whether data unit type flags 128-254 are looked up among extensions
    pub enable_extensions: bool,
    /// name of the text encoding
    pub default_encoding: String,
    /// largest packet input accepted, in bytes
    pub max_buffer_size: usize,
}

impl Default for DecoderConfig {
    /// Strict, without extensions, UTF-8, 64 KiB.
    fn default() -> (r: Self)
        ensures
            r.strict_mode,
            !r.enable_extensions,
            r.default_encoding@ == "UTF-8"@,
            r.max_buffer_size == 65536,
    {
        DecoderConfig {
            strict_mode: true,
            enable_extensions: false,
            default_encoding: "UTF-8".to_owned(),
            max_buffer_size: 64 * 1024,
        }
    }
}

/// Two's complement value of four little-endian bytes.
pub open spec fn le32_signed(b0: u8, b1: u8, b2: u8, b3: u8) -> i32 {
    let u = le32(b0, b1, b2, b3) as int;
    if u >= 0x8000_0000 {
        (u - 0x1_0000_0000) as i32
    } else {
        u as i32
    }
}

/// The first out-of-range field of year, month, day, hour, minute, second
/// bytes in strict mode, with the message prefix of its error.
pub open spec fn strict_timestamp_problem(b: Seq<u8>) -> Option<(Seq<char>, u8)> {
    if b[1] == 0 || b[1] > 12 {
        Some(("月份无效: "@, b[1]))
    } else if b[2] == 0 || b[2] > 31 {
        Some(("日期无效: "@, b[2]))
    } else if b[3] > 23 {
        Some(("小时无效: "@, b[3]))
    } else if b[4] > 59 {
        Some(("分钟无效: "@, b[4]))
    } else if b[5] > 59 {
        Some(("秒无效: "@, b[5]))
    } else {
        None
    }
}

/// Decodes packets, data units and primitive values.
#[derive(Debug, Clone)]
pub struct Decoder {
    /// the packet codec
    pub packet_codec: PacketCodec,
    /// the data unit codec
    pub data_unit_codec: DataUnitCodec,
    /// the settings
    pub config: DecoderConfig,
}

/// A time-out-of-range error with `prefix` and the value in decimal.
pub(crate) fn timestamp_reason(prefix: &str, value: u8) -> (e: ParseError)
    ensures
        e matches ParseError::InvalidTimestampReason { reason } && reason@ == prefix@
            + decimal_text(value as nat),
{
    let mut reason = prefix.to_owned();
    push_decimal(&mut reason, value as u64);
    ParseError::InvalidTimestampReason { reason }
}

impl Decoder {
    /// A decoder with the default settings.
    pub fn new() -> (r: Self)
        ensures
            r.config.strict_mode,
            !r.config.enable_extensions,
            r.config.max_buffer_size == 65536,
            !r.data_unit_codec.enable_extensions,
            r.data_unit_codec.registry.data_unit_extensions@.len() == 0,
    {
        Decoder {
            packet_codec: PacketCodec::new(),
            data_unit_codec: DataUnitCodec::new(),
            config: DecoderConfig::default(),
        }
    }

    /// A decoder with the given settings; its data unit codec has
    /// extensions enabled when the settings say so.
    pub fn with_config(config: DecoderConfig) -> (r: Self)
        ensures
            r.config == config,
            r.data_unit_codec.enable_extensions == config.enable_extensions,
            r.data_unit_codec.registry.data_unit_extensions@.len() == 0,
    {
        let data_unit_codec = if config.enable_extensions {
            DataUnitCodec::with_extensions()
        } else {
            DataUnitCodec::new()
        };
        Decoder { packet_codec: PacketCodec::new(), data_unit_codec, config }
    }

    /// The settings.
    pub fn config(&self) -> (r: &DecoderConfig)
        ensures
            *r == self.config,
    {
        &self.config
    }

    /// Decodes a whole frame; input longer than the buffer limit is refused.
    pub fn decode_packet(&self, data: &[u8]) -> (r: ParseResult<Packet>)
        ensures
            data@.len() > self.config.max_buffer_size ==> (r matches Err(
                ParseError::BufferTooLarge { max_size, actual_size },
            ) && max_size == self.config.max_buffer_size && actual_size == data@.len()),
            data@.len() <= self.config.max_buffer_size ==> packet_codec_decode_ok(data@, r),
    {
        if data.len() > self.config.max_buffer_size {
            return Err(
                ParseError::BufferTooLarge {
                    max_size: self.config.max_buffer_size,
                    actual_size: data.len(),
                },
            );
        }
        DecoderTrait::<Packet>::decode(&self.packet_codec, data)
    }

    /// Decodes a data unit from its type flag and content.
    pub fn decode_data_unit(&self, data: &[u8]) -> (r: ParseResult<GenericDataUnit>)
        ensures
            codec_decode_ok(
                self.data_unit_codec.enable_extensions,
                self.data_unit_codec.registry.data_unit_extensions@,
                data@,
                r,
            ),
    {
        self.data_unit_codec.decode_generic(data)
    }

    /// The text of UTF-8 bytes.
    pub fn decode_string(&self, data: &[u8]) -> (r: ParseResult<String>)
        ensures
            r is Ok <==> vstd::utf8::valid_utf8(data@),
            r matches Ok(s) ==> s@ == vstd::utf8::decode_utf8(data@),
            r matches Err(e) ==> e matches ParseError::InvalidEncoding { encoding, .. }
                && encoding@ == "UTF-8"@,
    {
        match utf8_str(data) {
            Ok(s) => Ok(s.to_owned()),
            Err(e) => Err(
                ParseError::InvalidEncoding {
                    encoding: "UTF-8".to_owned(),
                    reason: utf8_error_message(&e),
                },
            ),
        }
    }

    /// A little-endian two's complement 32-bit integer from the first four
    /// bytes.
    pub fn decode_i32(&self, data: &[u8]) -> (r: ParseResult<i32>)
        ensures
            data@.len() < 4 ==> (r matches Err(ParseError::InsufficientData { expected, actual })
                && expected == 4 && actual == data@.len()),
            data@.len() >= 4 ==> r == Ok::<i32, ParseError>(
                le32_signed(data@[0], data@[1], data@[2], data@[3]),
            ),
    {
        if data.len() < 4 {
            return Err(ParseError::InsufficientData { expected: 4, actual: data.len() });
        }
        let u = u32_from_le(data[0], data[1], data[2], data[3]);
        if u >= 0x8000_0000 {
            Ok((u as i64 - 0x1_0000_0000i64) as i32)
        } else {
            Ok(u as i32)
        }
    }

    /// Six date-time bytes (year, month, day, hour, minute, second); in
    /// strict mode each field must be in its range.
    pub fn decode_timestamp(&self, data: &[u8]) -> (r: ParseResult<[u8; 6]>)
        ensures
            data@.len() != 6 ==> (r matches Err(ParseError::InvalidDataLength { expected, actual })
                && expected == 6 && actual == data@.len()),
            data@.len() == 6 ==> match (
                if self.config.strict_mode {
                    strict_timestamp_problem(data@)
                } else {
                    None
                }
            ) {
                None => r matches Ok(a) && a@ == data@,
                Some((prefix, v)) => r matches Err(ParseError::InvalidTimestampReason { reason })
                    && reason@ == prefix + decimal_text(v as nat),
            },
    {
        if data.len() != 6 {
            return Err(ParseError::InvalidDataLength { expected: 6, actual: data.len() });
        }
        let timestamp: [u8; 6] = [data[0], data[1], data[2], data[3], data[4], data[5]];
        proof {
            assert(timestamp@ =~= data@);
        }
        if self.config.strict_mode {
            let month = timestamp[1];
            let day = timestamp[2];
            let hour = timestamp[3];
            let minute = timestamp[4];
            let second = timestamp[5];
            if month == 0 || month > 12 {
                return Err(timestamp_reason("月份无效: ", month));
            }
            if day == 0 || day > 31 {
                return Err(timestamp_reason("日期无效: ", day));
            }
            if hour > 23 {
                return Err(timestamp_reason("小时无效: ", hour));
            }
            if minute > 59 {
                return Err(timestamp_reason("分钟无效: ", minute));
            }
            if second > 59 {
                return Err(timestamp_reason("秒无效: ", second));
            }
        }
        Ok(timestamp)
    }

    /// A little-endian 16-bit address from the first two bytes.
    pub fn decode_address(&self, data: &[u8]) -> (r: ParseResult<u16>)
        ensures
            data@.len() < 2 ==> (r matches Err(ParseError::InsufficientData { expected, actual })
                && expected == 2 && actual == data@.len()),
            data@.len() >= 2 ==> r == Ok::<u16, ParseError>(le16(data@[0], data@[1])),
    {
        if data.len() < 2 {
            return Err(ParseError::InsufficientData { expected: 2, actual: data.len() });
        }
        Ok(u16_from_le(data[0], data[1]))
    }

    /// A flag from the first byte: 0 is false, 1 is true, any other value is
    /// refused in strict mode and true otherwise.
    pub fn decode_boolean(&self, data: &[u8]) -> (r: ParseResult<bool>)
        ensures
            data@.len() == 0 ==> (r matches Err(ParseError::InsufficientData { expected, actual })
                && expected == 1 && actual == 0),
            data@.len() > 0 && data@[0] == 0 ==> r == Ok::<bool, ParseError>(false),
            data@.len() > 0 && data@[0] == 1 ==> r == Ok::<bool, ParseError>(true),
            data@.len() > 0 && data@[0] > 1 ==> if self.config.strict_mode {
                r matches Err(ParseError::InvalidBooleanValue { value }) && value == data@[0]
            } else {
                r == Ok::<bool, ParseError>(true)
            },
    {
        if data.len() == 0 {
            return Err(ParseError::InsufficientData { expected: 1, actual: 0 });
        }
        match data[0] {
            0 => Ok(false),
            1 => Ok(true),
            other => {
                if self.config.strict_mode {
                    Err(ParseError::InvalidBooleanValue { value: other })
                } else {
                    Ok(other != 0)
                }
            },
        }
    }

    /// A packet from the front of `data` with the number of bytes it takes;
    /// none while the data is too short.
    pub fn try_decode_packet(&self, data: &[u8]) -> (r: ParseResult<Option<(Packet, usize)>>)
        ensures
            r matches Ok(Some((p, used))) ==> packet_parse_ok(data@, Ok(p)) && used == 30
                + crate::frame::packet::frame_data_len(data@),
            r matches Ok(None) ==> exists|e: ParseError|
                #[trigger] packet_parse_ok(data@, Err(e)) && (e is InsufficientData || e is TooShort),
            r matches Err(e) ==> packet_parse_ok(data@, Err(e)) && !(e is InsufficientData || e is TooShort),
    {
        match Packet::try_parse(data) {
            Ok((packet, consumed)) => Ok(Some((packet, consumed))),
            Err(ParseError::InsufficientData { expected, actual }) => {
                proof {
                    assert(packet_parse_ok(data@, Err(ParseError::InsufficientData { expected, actual })));
                }
                Ok(None)
            },
            Err(ParseError::TooShort { actual, expected }) => {
                proof {
                    assert(packet_parse_ok(data@, Err(ParseError::TooShort { actual, expected })));
                }
                Ok(None)
            },
            Err(e) => Err(e),
        }
    }
}

impl Default for Decoder {
    fn default() -> (r: Self)
        ensures
            r.config.strict_mode,
            !r.config.enable_extensions,
            !r.data_unit_codec.enable_extensions,
    {
        Self::new()
    }
}

impl DecoderTrait<Packet> for Decoder {
    /// Decodes a whole frame, as `decode_packet`.
    fn decode(&self, data: &[u8]) -> (r: ParseResult<Packet>)
        ensures
            data@.len() <= self.config.max_buffer_size ==> packet_codec_decode_ok(data@, r),
    {
        self.decode_packet(data)
    }
}

impl DecoderTrait<GenericDataUnit> for Decoder {
    /// Decodes a data unit, as `decode_data_unit`.
    fn decode(&self, data: &[u8]) -> (r: ParseResult<GenericDataUnit>)
        ensures
            codec_decode_ok(
                self.data_unit_codec.enable_extensions,
                self.data_unit_codec.registry.data_unit_extensions@,
                data@,
                r,
            ),
    {
        self.decode_data_unit(data)
    }
}

/// The decoder reads back what the encoder writes of a text and of an
/// address: the bytes of a text are valid UTF-8 that decode to the text,
/// and the two bytes of an address give the address.
pub proof fn law_text_and_address_roundtrip(text: Seq<char>, address: u16)
    ensures
        vstd::utf8::valid_utf8(vstd::utf8::encode_utf8(text)),
        vstd::utf8::decode_utf8(vstd::utf8::encode_utf8(text)) == text,
        le16(le16_bytes(address)[0], le16_bytes(address)[1]) == address,
{
    vstd::utf8::encode_utf8_valid_utf8(text);
    vstd::utf8::encode_utf8_decode_utf8(text);
    crate::wire::lemma_le16_roundtrip(address);
}

} // verus!
