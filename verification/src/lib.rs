//! A semantic alias layer for shell commands and filesystem paths.
//!
//! The library holds the mapping store with its style presets, the
//! translation engine that resolves one semantic invocation into a
//! concrete execution plan, and the setup wizard's state machine.

pub mod store;
pub mod strutil;
pub mod translate;
pub mod wizard;
