//! A host-side layer for embedding a script engine: the lifecycle of the engine
//! and of its isolates, the bindings that make native code reachable from a
//! script, and the protocol by which a running script calls into them.
//!
//! The engine itself (parsing, execution, memory) is not part of this crate.
//! The embedder drives it and reports what it does; every decision the host
//! has to take in between is a function here, with its contract.

pub mod binding;
pub mod context;
pub mod error;
pub mod handle;
pub mod isolate;
pub mod laws;
pub mod natives;
pub mod report;
pub mod runtime;
pub mod script;
pub mod table;
pub mod template;
pub mod value;
