//! Typed hardware operations expressed as register and command sequences.

pub mod fan;
