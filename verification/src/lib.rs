//! Live traffic anomaly monitoring for one network interface: the path of a
//! packet from raw frame to dashboard counter, with every step stated as a
//! contract and proved.
//!
//! * [`capture::parser`] decodes a frame into header fields.
//! * [`capture::sniffer`] times the frames of a session.
//! * [`capture::types`] turns a frame into a feature record.
//! * [`ml::engine`] draws the verdict from a model's score.
//! * [`capture::pipeline`] holds the producer's decisions, and
//!   [`capture::channel`] the bounded queue it delivers to.
//! * [`tui::app`] is the dashboard state on the consumer's side.
//! * [`session`] states what the parts do together.
//!
//! Times are whole nanoseconds and a score is the bit pattern of its binary64
//! encoding, so that no contract rests on floating-point arithmetic.

pub mod capture;
pub mod ml;
pub mod protocols;
pub mod session;
pub mod tui;
