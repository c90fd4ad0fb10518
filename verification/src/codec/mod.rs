//! Codecs: packets, data units, primitive values and framed streams.
pub mod data_unit_codec;
pub mod decoder;
pub mod decoder_old;
pub mod encoder;
pub mod framed;
pub mod packet_codec;
pub mod traits;

pub use data_unit_codec::DataUnitCodec;
pub use decoder::{Decoder, DecoderConfig};
pub use encoder::{Encoder, EncoderConfig};
pub use framed::{GB26875FramedCodec, LengthFieldCodec, StreamProcessor, StreamStats};
pub use packet_codec::PacketCodec;
pub use traits::{Codec, Decoder as DecoderTrait, Encoder as EncoderTrait, StreamCodec};
