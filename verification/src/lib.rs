//! Domain model of a personal AI gateway: upstream credentials, model aliases,
//! usage records and settings, with the rules that govern them.

pub mod domain;
pub mod error;
pub mod features;
pub mod ports;
pub mod text;
