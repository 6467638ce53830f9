//! A compact, self-authenticating binary frame for sensor telemetry.
//!
//! A frame is a fixed 62-byte header followed by a payload. The header
//! carries an HMAC-SHA-256 code computed over the whole frame with the code
//! field zeroed, so that any change to the header or payload is detected by
//! a holder of the shared secret key.

pub mod bytes;
mod clock;
pub mod error;
pub mod header;
pub mod laws;
pub mod little_endian;
pub mod mac;
pub mod message;

pub use error::{ClockError, FormatError};
pub use header::D4Header;
pub use message::D4Message;
