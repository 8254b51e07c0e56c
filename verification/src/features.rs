//! Inputs and outputs of the use cases, one module per bounded context.

pub mod catalog;
pub mod credential;
pub mod metering;
pub mod relay;
pub mod settings;
