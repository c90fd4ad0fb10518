//! Frame structures: checksum, timestamp, control unit and packet.
pub mod checksum;
pub mod header;
pub mod packet;
pub mod timestamp;

pub use checksum::{calculate_checksum, calculate_packet_checksum, simple_checksum, verify_checksum};
pub use header::ControlUnit;
pub use packet::Packet;
pub use timestamp::Timestamp;
