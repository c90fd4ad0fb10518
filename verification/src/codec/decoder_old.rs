//! Decoder with a choice of text encodings (UTF-8 and GB18030), batch and
//! kind detection on top of the data unit codec.
use crate::codec::data_unit_codec::{batch_decode_ok, codec_decode_ok, DataUnitCodec};
use crate::codec::decoder::{strict_timestamp_problem, timestamp_reason};
use crate::codec::packet_codec::{packet_codec_decode_ok, PacketCodec};
use crate::codec::traits::Decoder as DecoderTrait;
use crate::data_unit::GenericDataUnit;
use crate::error::{ParseError, ParseResult};
use crate::frame::packet::{packet_parse_ok, Packet};
use crate::protocol::DataUnitType;
use crate::text::{decimal_text, gb18030_decode, gb18030_decoding, utf8_error_message, utf8_str};
use crate::wire::{le16, u16_from_le};
use std::collections::HashMap;
use vstd::prelude::*;

verus! {

/// Settings of a decoder.
#[derive(Debug, Clone)]
pub struct DecoderConfig {
    /// whether values are checked against their ranges
    pub strict_mode: bool,
    /// whether data unit type flags 128-254 are looked up among extensions
    pub enable_extensions: bool,
    /// name of the text encoding used when none is given
    pub default_encoding: String,
    /// largest packet input accepted, in bytes
    pub max_buffer_size: usize,
    /// names of decoders by type code
    pub custom_decoders: HashMap<u8, String>,
}

impl Default for DecoderConfig {
    /// Strict, without extensions, GB18030, 64 KiB, no custom decoders.
    fn default() -> (r: Self)
        ensures
            r.strict_mode,
            !r.enable_extensions,
            r.default_encoding@ == "GB18030"@,
            r.max_buffer_size == 65536,
            r.custom_decoders@.len() == 0,
    {
        DecoderConfig {
            strict_mode: true,
            enable_extensions: false,
            default_encoding: "GB18030".to_owned(),
            max_buffer_size: 64 * 1024,
            custom_decoders: HashMap::new(),
        }
    }
}

/// What kind of data a byte sequence looks like.
#[derive(Debug, Clone, Copy, PartialEq, Eq, Structural)]
pub enum AnalyzedDataType {
    /// no bytes
    Empty,
    /// a frame: bytes starting with the start marker `@@`
    Packet,
    /// a data unit: a standard type flag, or a user defined one with
    /// extensions enabled
    DataUnit,
    /// UTF-8 text starting with `{` or `[`
    Json,
    /// none of these
    Unknown,
}

/// The kind of data `b` looks like, checked in the order of the variants.
pub open spec fn analyzed_kind(b: Seq<u8>, enable_extensions: bool) -> AnalyzedDataType {
    if b.len() == 0 {
        AnalyzedDataType::Empty
    } else if b.len() >= 2 && b[0] == 0x40 && b[1] == 0x40 {
        AnalyzedDataType::Packet
    } else if DataUnitType::spec_from_u8(b[0]).spec_is_standard() || (DataUnitType::spec_from_u8(
        b[0],
    ).spec_is_custom() && enable_extensions) {
        AnalyzedDataType::DataUnit
    } else if vstd::utf8::valid_utf8(b) && (b[0] == 0x7b || b[0] == 0x5b) {
        AnalyzedDataType::Json
    } else {
        AnalyzedDataType::Unknown
    }
}

/// The text encoding a name selects.
pub open spec fn encoding_choice(name: Seq<char>) -> int {
    if name == "UTF-8"@ || name == "utf-8"@ {
        1
    } else if name == "GB18030"@ || name == "gb18030"@ {
        2
    } else {
        0
    }
}

/// Decodes packets, data units and primitive values, with a choice of text
/// encodings.
#[derive(Debug, Clone)]
pub struct Decoder {
    /// the packet codec
    pub packet_codec: PacketCodec,
    /// the data unit codec
    pub data_unit_codec: DataUnitCodec,
    /// the settings
    pub config: DecoderConfig,
}

/// Whether two texts are equal.
fn same_text(a: &str, b: &str) -> (r: bool)
    ensures
        r == (a@ == b@),
{
    a.to_owned() == b.to_owned()
}

impl Decoder {
    /// A decoder with the default settings.
    pub fn new() -> (r: Self)
        ensures
            r.config.strict_mode,
            !r.config.enable_extensions,
            r.config.default_encoding@ == "GB18030"@,
            !r.data_unit_codec.enable_extensions,
    {
        Decoder {
            packet_codec: PacketCodec::new(),
            data_unit_codec: DataUnitCodec::new(),
            config: DecoderConfig::default(),
        }
    }

    /// A decoder with the given settings; its data unit codec has
    /// extensions enabled when the settings say so.
    pub fn with_config(config: DecoderConfig) -> (r: Self)
        ensures
            r.config == config,
            r.data_unit_codec.enable_extensions == config.enable_extensions,
            r.data_unit_codec.registry.data_unit_extensions@.len() == 0,
    {
        let data_unit_codec = if config.enable_extensions {
            DataUnitCodec::with_extensions()
        } else {
            DataUnitCodec::new()
        };
        Decoder { packet_codec: PacketCodec::new(), data_unit_codec, config }
    }

    /// The settings.
    pub fn config(&self) -> (r: &DecoderConfig)
        ensures
            *r == self.config,
    {
        &self.config
    }

    /// Replaces the settings and makes a new data unit codec for them.
    pub fn set_config(&mut self, config: DecoderConfig)
        ensures
            final(self).config == config,
            final(self).data_unit_codec.enable_extensions == config.enable_extensions,
            final(self).data_unit_codec.registry.data_unit_extensions@.len() == 0,
            final(self).packet_codec == old(self).packet_codec,
    {
        self.data_unit_codec = if config.enable_extensions {
            DataUnitCodec::with_extensions()
        } else {
            DataUnitCodec::new()
        };
        self.config = config;
    }

    /// Decodes a whole frame; input longer than the buffer limit is refused.
    pub fn decode_packet(&self, data: &[u8]) -> (r: ParseResult<Packet>)
        ensures
            data@.len() > self.config.max_buffer_size ==> (r matches Err(
                ParseError::BufferTooLarge { max_size, actual_size },
            ) && max_size == self.config.max_buffer_size && actual_size == data@.len()),
            data@.len() <= self.config.max_buffer_size ==> packet_codec_decode_ok(data@, r),
    {
        if data.len() > self.config.max_buffer_size {
            return Err(
                ParseError::BufferTooLarge {
                    max_size: self.config.max_buffer_size,
                    actual_size: data.len(),
                },
            );
        }
        DecoderTrait::<Packet>::decode(&self.packet_codec, data)
    }

    /// Decodes a data unit from its type flag and content.
    pub fn decode_data_unit(&self, data: &[u8]) -> (r: ParseResult<GenericDataUnit>)
        ensures
            codec_decode_ok(
                self.data_unit_codec.enable_extensions,
                self.data_unit_codec.registry.data_unit_extensions@,
                data@,
                r,
            ),
    {
        self.data_unit_codec.decode_generic(data)
    }

    /// Decodes data units one after another.
    pub fn decode_batch(&self, data: &[u8]) -> (r: ParseResult<Vec<GenericDataUnit>>)
        ensures
            batch_decode_ok(
                self.data_unit_codec.enable_extensions,
                self.data_unit_codec.registry.data_unit_extensions@,
                data@,
                match r {
                    Ok(v) => Ok(v@),
                    Err(e) => Err(e),
                },
            ),
    {
        self.data_unit_codec.decode_batch(data)
    }

    /// Decodes a data unit from its type flag and content.
    pub fn decode_smart(&self, data: &[u8]) -> (r: ParseResult<GenericDataUnit>)
        ensures
            codec_decode_ok(
                self.data_unit_codec.enable_extensions,
                self.data_unit_codec.registry.data_unit_extensions@,
                data@,
                r,
            ),
    {
        self.data_unit_codec.decode_smart(data)
    }

    /// The outcome of a GB18030 decoding: refused in strict mode when
    /// malformed sequences were replaced, the text otherwise.
    pub fn finish_gb18030(&self, decoded: String, had_errors: bool) -> (r: ParseResult<String>)
        ensures
            had_errors && self.config.strict_mode ==> (r matches Err(
                ParseError::InvalidEncoding { encoding, .. },
            ) && encoding@ == "GB18030"@),
            !(had_errors && self.config.strict_mode) ==> (r matches Ok(s) && s@ == decoded@),
    {
        if had_errors && self.config.strict_mode {
            Err(
                ParseError::InvalidEncoding {
                    encoding: "GB18030".to_owned(),
                    reason: "数据包含无效的GB18030字符".to_owned(),
                },
            )
        } else {
            Ok(decoded)
        }
    }

    /// The text of `data` in the named encoding, or in the default one:
    /// UTF-8 and GB18030 (either spelling case); any other name is refused.
    pub fn decode_string(&self, data: &[u8], encoding: Option<&str>) -> (r: ParseResult<String>)
        requires
            encoding_choice(
                match encoding {
                    Some(e) => e@,
                    None => self.config.default_encoding@,
                },
            ) == 2 ==> data@.len() <= usize::MAX / 4,
        ensures
            ({
                let name = match encoding {
                    Some(e) => e@,
                    None => self.config.default_encoding@,
                };
                &&& encoding_choice(name) == 1 ==> {
                    &&& r is Ok <==> vstd::utf8::valid_utf8(data@)
                    &&& r matches Ok(s) ==> s@ == vstd::utf8::decode_utf8(data@)
                    &&& r matches Err(e) ==> e matches ParseError::InvalidEncoding { encoding, .. }
                        && encoding@ == "UTF-8"@
                }
                &&& encoding_choice(name) == 2 ==> {
                    let (text, bad) = gb18030_decoding(data@);
                    &&& bad && self.config.strict_mode ==> (r matches Err(
                        ParseError::InvalidEncoding { encoding, .. },
                    ) && encoding@ == "GB18030"@)
                    &&& !(bad && self.config.strict_mode) ==> (r matches Ok(s) && s@ == text)
                }
                &&& encoding_choice(name) == 0 ==> (r matches Err(
                    ParseError::UnsupportedEncoding { encoding },
                ) && encoding@ == name)
            }),
    {
        let name: &str = match encoding {
            Some(e) => e,
            None => self.config.default_encoding.as_str(),
        };
        if same_text(name, "UTF-8") || same_text(name, "utf-8") {
            match utf8_str(data) {
                Ok(s) => Ok(s.to_owned()),
                Err(e) => Err(
                    ParseError::InvalidEncoding {
                        encoding: "UTF-8".to_owned(),
                        reason: utf8_error_message(&e),
                    },
                ),
            }
        } else if same_text(name, "GB18030") || same_text(name, "gb18030") {
            let (decoded, had_errors) = gb18030_decode(data);
            self.finish_gb18030(decoded, had_errors)
        } else {
            Err(ParseError::UnsupportedEncoding { encoding: name.to_owned() })
        }
    }

    /// Six date-time bytes (year, month, day, hour, minute, second); in
    /// strict mode each field must be in its range.
    pub fn decode_timestamp(&self, data: &[u8]) -> (r: ParseResult<[u8; 6]>)
        ensures
            data@.len() != 6 ==> (r matches Err(ParseError::InvalidDataLength { expected, actual })
                && expected == 6 && actual == data@.len()),
            data@.len() == 6 ==> match (
                if self.config.strict_mode {
                    strict_timestamp_problem(data@)
                } else {
                    None
                }
            ) {
                None => r matches Ok(a) && a@ == data@,
                Some((prefix, v)) => r matches Err(ParseError::InvalidTimestampReason { reason })
                    && reason@ == prefix + decimal_text(v as nat),
            },
    {
        if data.len() != 6 {
            return Err(ParseError::InvalidDataLength { expected: 6, actual: data.len() });
        }
        let timestamp: [u8; 6] = [data[0], data[1], data[2], data[3], data[4], data[5]];
        proof {
            assert(timestamp@ =~= data@);
        }
        if self.config.strict_mode {
            let month = timestamp[1];
            let day = timestamp[2];
            let hour = timestamp[3];
            let minute = timestamp[4];
            let second = timestamp[5];
            if month == 0 || month > 12 {
                return Err(timestamp_reason("月份无效: ", month));
            }
            if day == 0 || day > 31 {
                return Err(timestamp_reason("日期无效: ", day));
            }
            if hour > 23 {
                return Err(timestamp_reason("小时无效: ", hour));
            }
            if minute > 59 {
                return Err(timestamp_reason("分钟无效: ", minute));
            }
            if second > 59 {
                return Err(timestamp_reason("秒无效: ", second));
            }
        }
        Ok(timestamp)
    }

    /// A little-endian 16-bit address from the first two bytes.
    pub fn decode_address(&self, data: &[u8]) -> (r: ParseResult<u16>)
        ensures
            data@.len() < 2 ==> (r matches Err(ParseError::InsufficientData { expected, actual })
                && expected == 2 && actual == data@.len()),
            data@.len() >= 2 ==> r == Ok::<u16, ParseError>(le16(data@[0], data@[1])),
    {
        if data.len() < 2 {
            return Err(ParseError::InsufficientData { expected: 2, actual: data.len() });
        }
        Ok(u16_from_le(data[0], data[1]))
    }

    /// A flag from the first byte: 0 is false, 1 is true, any other value is
    /// refused in strict mode and true otherwise.
    pub fn decode_boolean(&self, data: &[u8]) -> (r: ParseResult<bool>)
        ensures
            data@.len() == 0 ==> (r matches Err(ParseError::InsufficientData { expected, actual })
                && expected == 1 && actual == 0),
            data@.len() > 0 && data@[0] == 0 ==> r == Ok::<bool, ParseError>(false),
            data@.len() > 0 && data@[0] == 1 ==> r == Ok::<bool, ParseError>(true),
            data@.len() > 0 && data@[0] > 1 ==> if self.config.strict_mode {
                r matches Err(ParseError::InvalidBooleanValue { value }) && value == data@[0]
            } else {
                r == Ok::<bool, ParseError>(true)
            },
    {
        if data.len() == 0 {
            return Err(ParseError::InsufficientData { expected: 1, actual: 0 });
        }
        match data[0] {
            0 => Ok(false),
            1 => Ok(true),
            other => {
                if self.config.strict_mode {
                    Err(ParseError::InvalidBooleanValue { value: other })
                } else {
                    Ok(other != 0)
                }
            },
        }
    }

    /// A packet from the front of `data` with the number of bytes it takes;
    /// none while the data is too short.
    pub fn try_decode_packet(&self, data: &[u8]) -> (r: ParseResult<Option<(Packet, usize)>>)
        ensures
            r matches Ok(Some((p, used))) ==> packet_parse_ok(data@, Ok(p)) && used == 30
                + crate::frame::packet::frame_data_len(data@),
            r matches Ok(None) ==> exists|e: ParseError|
                #[trigger] packet_parse_ok(data@, Err(e)) && (e is InsufficientData || e is TooShort),
            r matches Err(e) ==> packet_parse_ok(data@, Err(e)) && !(e is InsufficientData
                || e is TooShort),
    {
        match Packet::try_parse(data) {
            Ok((packet, consumed)) => Ok(Some((packet, consumed))),
            Err(ParseError::InsufficientData { expected, actual }) => {
                proof {
                    assert(packet_parse_ok(
                        data@,
                        Err(ParseError::InsufficientData { expected, actual }),
                    ));
                }
                Ok(None)
            },
            Err(ParseError::TooShort { actual, expected }) => {
                proof {
                    assert(packet_parse_ok(data@, Err(ParseError::TooShort { actual, expected })));
                }
                Ok(None)
            },
            Err(e) => Err(e),
        }
    }

    /// The kind of data `data` looks like.
    pub fn analyze_data_kind(&self, data: &[u8]) -> (r: AnalyzedDataType)
        ensures
            r == analyzed_kind(data@, self.config.enable_extensions),
    {
        if data.len() == 0 {
            return AnalyzedDataType::Empty;
        }
        if data.len() >= 2 && data[0] == 0x40 && data[1] == 0x40 {
            return AnalyzedDataType::Packet;
        }
        let data_unit_type = DataUnitType::from_u8(data[0]);
        if data_unit_type.is_standard() || (data_unit_type.is_custom()
            && self.config.enable_extensions) {
            return AnalyzedDataType::DataUnit;
        }
        if utf8_str(data).is_ok() {
            if data[0] == 0x7b || data[0] == 0x5b {
                return AnalyzedDataType::Json;
            }
        }
        AnalyzedDataType::Unknown
    }
}

impl Default for Decoder {
    fn default() -> (r: Self)
        ensures
            r.config.strict_mode,
            !r.config.enable_extensions,
            r.config.default_encoding@ == "GB18030"@,
    {
        Self::new()
    }
}

impl DecoderTrait<Packet> for Decoder {
    /// Decodes a whole frame, as `decode_packet`.
    fn decode(&self, data: &[u8]) -> (r: ParseResult<Packet>)
        ensures
            data@.len() <= self.config.max_buffer_size ==> packet_codec_decode_ok(data@, r),
    {
        self.decode_packet(data)
    }
}

impl DecoderTrait<GenericDataUnit> for Decoder {
    /// Decodes a data unit, as `decode_data_unit`.
    fn decode(&self, data: &[u8]) -> (r: ParseResult<GenericDataUnit>)
        ensures
            codec_decode_ok(
                self.data_unit_codec.enable_extensions,
                self.data_unit_codec.registry.data_unit_extensions@,
                data@,
                r,
            ),
    {
        self.decode_data_unit(data)
    }
}

} // verus!
