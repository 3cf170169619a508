//! Decoder, validator and delivery planner for TWELITE "status notify"
//! serial frames: an ASCII line of one `:` sentinel and 48 uppercase hex
//! digits encoding a 24-byte status report.

pub mod error;
pub mod pipeline;
pub mod sender;
pub mod status_notify;

pub use error::DecodeError;
pub use error::ValidateError;
pub use pipeline::FrameError;
pub use sender::Backend;
pub use sender::DeliveryRequest;
pub use sender::Sender;
pub use sender::Serial;
pub use sender::WebBackend;
pub use status_notify::StatusNotify;
