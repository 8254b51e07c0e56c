//! Ports: how the use cases are driven, and what they drive.

pub mod inbound;
pub mod outbound;
