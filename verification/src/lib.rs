//! A sandboxed host for WebAssembly plugins: the registry of loaded binaries,
//! the per-call execution protocol with its fuel, memory and time limits, the
//! guest memory layout, and the chain executor with its result extraction.

pub mod config;
pub mod text;
pub mod decimal;
pub mod ident;
pub mod error;
pub mod abi;
pub mod execution;
pub mod chain;
pub mod registry;
pub mod plugin_helpers;
pub mod rot13;
pub mod tracer;
pub mod notes;
pub mod wire;
pub mod executor;
pub mod server;
pub mod extract;
