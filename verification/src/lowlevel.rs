//! Access to the hardware: raw accessors and the middleware built on them.

pub mod accessor;
pub mod middleware;
