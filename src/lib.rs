//! A small just-in-time execution core: machine code is assembled into a
//! byte buffer, copied into an anonymous memory region that is then made
//! executable, and a fixed "add" routine is kept as a template whose operand
//! slots are patched in place between runs.
pub mod encoding;
pub mod region;
pub mod code_buffer;
pub mod calculator;

pub use calculator::JITCalculator;
pub use code_buffer::{ExecutableMemory, JitError};
