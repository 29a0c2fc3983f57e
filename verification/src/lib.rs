//! Host side of a point-to-point command/response protocol that carries
//! Wishbone bus read and write transactions over a synchronous full-duplex
//! serial link.
//!
//! The crate has two layers:
//!
//! - [`frame`] is the pure codec: three fixed 14-byte frames (write command,
//!   read command, response) with bit-exact encode and decode.
//! - [`bridge`] owns a duplex transport and sequences one transaction per
//!   call: encode, transfer, decode, validate.

pub mod bridge;
pub mod frame;

pub use bridge::Error;
pub use bridge::SpiWbBridge;
pub use bridge::Transport;
pub use bridge::TransportError;
pub use frame::FrameError;
pub use frame::Read;
pub use frame::Response;
pub use frame::Write;
