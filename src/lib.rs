//! Memory-augmentation filtering, audit and session-log formatting, and the
//! decisions of the spec-session bootstrap, with their contracts.

pub mod text;
pub mod filter;
pub mod audit;
pub mod session;
pub mod bootstrap;
