//! General encoder: packets, data units and primitive values (text,
//! date-time bytes, addresses, flags).
use crate::codec::data_unit_codec::{batch_encoding, flagged_encoding, DataUnitCodec};
use crate::codec::packet_codec::PacketCodec;
use crate::codec::traits::Encoder as EncoderTrait;
use crate::data_unit::GenericDataUnit;
use crate::error::EncodeResult;
use crate::frame::packet::Packet;
use crate::wire::{le16_bytes, u16_to_le};
use std::collections::HashMap;
use vstd::prelude::*;
use vstd::string::StringSliceAdditionalSpecFns;

verus! {

/// Settings of an encoder.
#[derive(Debug, Clone)]
pub struct EncoderConfig {
    /// whether output is compressed
    pub enable_compression: bool,
    /// whether data unit type flags 128-254 are looked up among extensions
    pub enable_extensions: bool,
    /// name of the text encoding used when none is given
    pub default_encoding: String,
    /// names of encoders by type code
    pub custom_encoders: HashMap<u8, String>,
}

impl Default for EncoderConfig {
    /// Uncompressed, without extensions, UTF-8, no custom encoders.
    fn default() -> (r: Self)
        ensures
            !r.enable_compression,
            !r.enable_extensions,
            r.default_encoding@ == "UTF-8"@,
            r.custom_encoders@.len() == 0,
    {
        EncoderConfig {
            enable_compression: false,
            enable_extensions: false,
            default_encoding: "UTF-8".to_owned(),
            custom_encoders: HashMap::new(),
        }
    }
}

/// Encodes packets, data units and primitive values.
#[derive(Debug, Clone)]
pub struct Encoder {
    /// the packet codec
    pub packet_codec: PacketCodec,
    /// the data unit codec
    pub data_unit_codec: DataUnitCodec,
    /// the settings
    pub config: EncoderConfig,
}

impl Encoder {
    /// An encoder with the default settings.
    pub fn new() -> (r: Self)
        ensures
            !r.config.enable_extensions,
            r.config.default_encoding@ == "UTF-8"@,
            !r.data_unit_codec.enable_extensions,
    {
        Encoder {
            packet_codec: PacketCodec::new(),
            data_unit_codec: DataUnitCodec::new(),
            config: EncoderConfig::default(),
        }
    }

    /// An encoder with the given settings; its data unit codec has
    /// extensions enabled when the settings say so.
    pub fn with_config(config: EncoderConfig) -> (r: Self)
        ensures
            r.config == config,
            r.data_unit_codec.enable_extensions == config.enable_extensions,
            r.data_unit_codec.registry.data_unit_extensions@.len() == 0,
    {
        let data_unit_codec = if config.enable_extensions {
            DataUnitCodec::with_extensions()
        } else {
            DataUnitCodec::new()
        };
        Encoder { packet_codec: PacketCodec::new(), data_unit_codec, config }
    }

    /// The settings.
    pub fn config(&self) -> (r: &EncoderConfig)
        ensures
            *r == self.config,
    {
        &self.config
    }

    /// Replaces the settings and makes a new data unit codec for them.
    pub fn set_config(&mut self, config: EncoderConfig)
        ensures
            final(self).config == config,
            final(self).data_unit_codec.enable_extensions == config.enable_extensions,
            final(self).data_unit_codec.registry.data_unit_extensions@.len() == 0,
            final(self).packet_codec == old(self).packet_codec,
    {
        self.data_unit_codec = if config.enable_extensions {
            DataUnitCodec::with_extensions()
        } else {
            DataUnitCodec::new()
        };
        self.config = config;
    }

    /// The frame bytes of a packet.
    pub fn encode_packet(&self, packet: &Packet) -> (r: EncodeResult<Vec<u8>>)
        ensures
            r matches Ok(v) && v@ == packet.spec_bytes(),
    {
        EncoderTrait::<Packet>::encode(&self.packet_codec, packet)
    }

    /// The type flag and bytes of a data unit.
    pub fn encode_data_unit(&self, data_unit: &GenericDataUnit) -> (r: EncodeResult<Vec<u8>>)
        ensures
            r matches Ok(v) && v@ == flagged_encoding(*data_unit),
    {
        self.data_unit_codec.encode_generic(data_unit)
    }

    /// The flagged encodings of the data units, one after another.
    pub fn encode_batch(&self, data_units: &[GenericDataUnit]) -> (r: EncodeResult<Vec<u8>>)
        ensures
            r matches Ok(v) && v@ == batch_encoding(data_units@),
    {
        self.data_unit_codec.encode_batch(data_units)
    }

    /// The UTF-8 bytes of the text, whatever encoding is named.
    pub fn encode_string(&self, s: &str, encoding: Option<&str>) -> (r: EncodeResult<Vec<u8>>)
        ensures
            r matches Ok(v) && v@ == s.spec_bytes(),
    {
        let _name: &str = match encoding {
            Some(e) => e,
            None => self.config.default_encoding.as_str(),
        };
        Ok(vstd::slice::slice_to_vec(s.as_bytes()))
    }

    /// The six date-time bytes as they are.
    pub fn encode_timestamp(&self, timestamp: &[u8; 6]) -> (r: EncodeResult<Vec<u8>>)
        ensures
            r matches Ok(v) && v@ == timestamp@,
    {
        let mut v: Vec<u8> = Vec::new();
        let mut i: usize = 0;
        while i < 6
            invariant
                i <= 6,
                v@ == timestamp@.take(i as int),
            decreases 6 - i,
        {
            v.push(timestamp[i]);
            proof {
                assert(timestamp@.take(i + 1) =~= timestamp@.take(i as int).push(timestamp@[i as int]));
            }
            i = i + 1;
        }
        proof {
            assert(timestamp@.take(6) =~= timestamp@);
        }
        Ok(v)
    }

    /// The two little-endian bytes of an address.
    pub fn encode_address(&self, address: u16) -> (r: EncodeResult<Vec<u8>>)
        ensures
            r matches Ok(v) && v@ == le16_bytes(address),
    {
        let b = u16_to_le(address);
        let mut v: Vec<u8> = Vec::new();
        v.push(b[0]);
        v.push(b[1]);
        proof {
            assert(v@ =~= le16_bytes(address));
        }
        Ok(v)
    }

    /// One byte: 1 for true, 0 for false.
    pub fn encode_boolean(&self, value: bool) -> (r: EncodeResult<Vec<u8>>)
        ensures
            r matches Ok(v) && v@ == seq![if value { 1u8 } else { 0u8 }],
    {
        let mut v: Vec<u8> = Vec::new();
        v.push(if value { 1 } else { 0 });
        proof {
            assert(v@ =~= seq![if value { 1u8 } else { 0u8 }]);
        }
        Ok(v)
    }
}

impl Default for Encoder {
    fn default() -> (r: Self)
        ensures
            !r.config.enable_extensions,
            !r.data_unit_codec.enable_extensions,
    {
        Self::new()
    }
}

impl EncoderTrait<Packet> for Encoder {
    /// The frame bytes of a packet, as `encode_packet`.
    fn encode(&self, item: &Packet) -> (r: EncodeResult<Vec<u8>>)
        ensures
            r matches Ok(v) && v@ == item.spec_bytes(),
    {
        self.encode_packet(item)
    }
}

impl EncoderTrait<GenericDataUnit> for Encoder {
    /// The flagged bytes of a data unit, as `encode_data_unit`.
    fn encode(&self, item: &GenericDataUnit) -> (r: EncodeResult<Vec<u8>>)
        ensures
            r matches Ok(v) && v@ == flagged_encoding(*item),
    {
        self.encode_data_unit(item)
    }
}

} // verus!
