//! Wire protocol of a bistable display controller that is driven over USB HID:
//! framing of the two commands, their checksum, and the reading of the
//! controller's status word.
//!
//! The crate does no I/O. `frame` and `status` are the codec, `checksum` the
//! CRC that closes a frame, and `exchange` the state machine of one request
//! and its response: it tells its caller what to write and what to read, and
//! the caller tells it what the transport reported.

pub mod buffer;
pub mod checksum;
pub mod command;
pub mod display;
pub mod exchange;
pub mod frame;
pub mod mode;
pub mod rect;
pub mod response;
pub mod status;
pub mod wire;

pub use crate::checksum::checksum;
pub use crate::command::Command;
pub use crate::display::Display;
pub use crate::exchange::step;
pub use crate::exchange::Action;
pub use crate::exchange::Event;
pub use crate::exchange::ProtocolError;
pub use crate::exchange::State;
pub use crate::exchange::Transition;
pub use crate::exchange::TransportError;
pub use crate::frame::encode_frame;
pub use crate::mode::Mode;
pub use crate::rect::Rect;
pub use crate::response::Response;
pub use crate::status::decode_status;
pub use crate::status::Outcome;
pub use crate::status::ProtocolViolation;
