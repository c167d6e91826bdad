//! The laws of the library: statements about every command line, every run
//! of a counter and every run of the engine, each with its proof.

pub mod config;
pub mod counter;
pub mod engine;
