//! Decision logic of a raw-frame mirror and generator.
//!
//! The crate holds everything the program decides: how the command line is
//! read, which frames are echoed, when throughput is reported, and in which
//! order the channel is opened, read and written. It performs no I/O itself;
//! a driver feeds it events and carries out the actions it answers with.
//!
//! - [`config`] reads the command line.
//! - [`frame`] tells the reads that carry a frame from those that do not, and
//!   keeps the frames that the generator sends.
//! - [`counter`] counts packets and decides when to report them.
//! - [`engine`] is the state machine that ties these together.
//! - [`error`] names what can end the program, and the words for it.
//! - [`text`] compares strings and reads and writes decimal numbers.
//! - [`laws`] states and proves what holds of every run.

pub mod config;
pub mod counter;
pub mod engine;
pub mod error;
pub mod frame;
pub mod laws;
pub mod text;
