//! Hardware-command pipeline of a laptop fan and sensor daemon.
//!
//! The crate holds the decisions of the pipeline: how a raw status read
//! proceeds chunk by chunk, which embedded-controller registers and command
//! bytes a fan operation uses, and how protocol messages are answered and
//! failures are reported. Touching the device itself is left to the caller,
//! which hands in what the hardware returned and carries out what the
//! library decided.

pub mod codec;
pub mod component;
pub mod lowlevel;
