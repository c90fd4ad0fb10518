//! Codec interfaces: encoding into bytes, decoding from bytes, and both.
use crate::error::{EncodeResult, ParseResult};
use vstd::prelude::*;

verus! {

/// Encodes and decodes values of type `T`.
pub trait Codec<T> {
    /// The bytes of `item`.
    fn encode(&self, item: &T) -> EncodeResult<Vec<u8>>;

    /// Reads a value from `data`.
    fn decode(&self, data: &[u8]) -> ParseResult<T>;
}

/// Encodes values of type `T`.
pub trait Encoder<T> {
    /// The bytes of `item`.
    fn encode(&self, item: &T) -> EncodeResult<Vec<u8>>;
}

/// Decodes values of type `T`.
pub trait Decoder<T> {
    /// Reads a value from `data`.
    fn decode(&self, data: &[u8]) -> ParseResult<T>;
}

/// Decodes values of type `T` out of a growing buffer.
pub trait StreamCodec<T> {
    /// Takes a value out of the front of `buffer` when a whole one is there.
    fn try_decode(&mut self, buffer: &mut Vec<u8>) -> ParseResult<Option<T>>;

    /// Appends the bytes of `item` to `buffer`.
    fn encode_to(&self, item: &T, buffer: &mut Vec<u8>) -> EncodeResult<()>;
}

/// Every type that encodes and decodes values of type `T` is a codec for
/// them.
impl<T, E: Encoder<T> + Decoder<T>> Codec<T> for E {
    fn encode(&self, item: &T) -> EncodeResult<Vec<u8>> {
        Encoder::encode(self, item)
    }

    fn decode(&self, data: &[u8]) -> ParseResult<T> {
        Decoder::decode(self, data)
    }
}

} // verus!
