//! Protocol core of an emulated ROG Aura Terminal.
//!
//! The host drives the lighting controller with vendor HID reports. This crate
//! decodes the reports it sends into lighting commands, builds the reports
//! that answer its queries, and keeps what has to be remembered between polls:
//! the answers still owed, in arrival order, and the latest command that
//! nobody has fetched yet. It does no I/O; the USB class that owns the
//! endpoint feeds it what it pulled and submits what it hands out.

pub mod aura;
pub mod codec;
pub mod engine;
pub mod message;
pub mod ready_queue;

pub use aura::RGB8;
pub use codec::ROG_AURA_DEFAULT_FIRMWARE_VERSION;
pub use engine::AsusRogTerminalHidClass;
pub use message::RogTerminalMessage;
