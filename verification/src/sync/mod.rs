//! Primitives shared between tasks.

pub mod notify;
pub mod ring;
