//! GB/T 26875.3 fire remote monitoring communication protocol: frames,
//! control units, information objects and application data units, with
//! their byte encodings verified against mathematical models.
pub mod builder;
pub mod codec;
pub mod data_unit;
pub mod error;
pub mod extension;
pub mod frame;
pub mod info_object;
pub mod parser;
pub mod prelude;
pub mod protocol;
pub mod text;
pub mod wire;

pub use error::{EncodeError, ExtensionError, ParseError};
pub use frame::Packet;

use vstd::prelude::*;

verus! {

/// Version of this library.
pub const VERSION: &'static str = "0.1.0";

/// Name of this library.
pub const NAME: &'static str = "gb26875";

/// Protocol version supported: major and user version numbers.
pub const PROTOCOL_VERSION: (u8, u8) = (1, 1);

} // verus!
