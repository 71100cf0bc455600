//! Accessors: the raw descriptor reader and the embedded-controller channel.

pub mod ec;
pub mod fd;
