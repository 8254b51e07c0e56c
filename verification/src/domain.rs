//! The domain layer: value objects, aggregates, events, errors and the
//! canonical representation of a model call.

pub mod aggregates;
pub mod canonical;
pub mod errors;
pub mod events;
pub mod values;
