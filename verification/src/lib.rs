//! Typed, tag-addressed conventions on top of OSC.
//!
//! OSC itself knows messages (an address and untyped arguments) and bundles
//! (ordered groups of packets). This crate adds:
//!
//! - typed reads of a message's arguments that never convert between kinds
//!   ([`OscArgHandler`]);
//! - a check that trailing arguments alternate string keys and float values
//!   ([`validate_args`]);
//! - tagged bundles, whose purpose is named by a leading info message
//!   ([`TaggedBundle`]), and timed packets built on them ([`TimedOSCPacket`]);
//! - a dispatch stack that routes a decoded packet to the handlers registered
//!   for its address or tag, and flattens the bundles of funneled tags
//!   ([`OSCStack`]).
//!
//! Input comes from the network and may be malformed: every operation either
//! succeeds or returns an [`OscError`], and none panics.

pub mod decimal;
pub mod error;
pub mod model;
pub mod osc_stack;
pub mod packet;
pub mod text;

pub use error::OscError;
pub use model::{validate_args, OscArgHandler, TaggedBundle, TimedOSCPacket};
pub use osc_stack::{Dispatch, OSCStack};
pub use packet::{OscBundle, OscMessage, OscPacket, OscType};
