//! Types and rules for proxy-based HTTP operations.

pub mod request;
pub mod response;
