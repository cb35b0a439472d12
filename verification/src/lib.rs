//! Core logic of a secure directional communication suite: coupled laser and
//! ultrasound channel validation, adaptive optical error correction, the
//! handshake state machines, the security manager, automatic fallback and the
//! hierarchical command protocol.
//!
//! Quantities that are fractional in the physical world are held as integers
//! in fixed units, named in each field's documentation (per-mille for ratios
//! between 0 and 1, parts per million for error rates, centimeters for ranges,
//! milliseconds for instants and durations).

pub mod audio;
pub mod audit;
pub mod optical_ecc;
pub mod protocol;
pub mod channel_validator;
pub mod crypto;
pub mod fallback;
pub mod gibberdot;
pub mod hierarchical;
pub mod laser;
pub mod messaging;
pub mod mission_transfer;
pub mod multimodal;
pub mod performance_monitor;
pub mod range_detector;
pub mod security;
pub mod ultrasonic_beam;
pub use messaging::{Message, MessagePriority, MessageType, MessagingError, RgibberLink};
