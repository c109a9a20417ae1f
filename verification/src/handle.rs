//! Plain identifiers by which the host names what the embedder owns.

use vstd::prelude::*;

verus! {

/// Names a native function that the embedder registered.
#[derive(Debug, Clone, Copy, PartialEq, Eq, Structural)]
pub struct FunctionHandle(pub u64);

/// Names the native getter of an accessor property.
#[derive(Debug, Clone, Copy, PartialEq, Eq, Structural)]
pub struct GetterHandle(pub u64);

/// Names the native setter of an accessor property.
#[derive(Debug, Clone, Copy, PartialEq, Eq, Structural)]
pub struct SetterHandle(pub u64);

/// Names one execution context: the isolate that owns it and its place there.
#[derive(Debug, Clone, Copy, PartialEq, Eq, Structural)]
pub struct ContextHandle {
    pub isolate: u64,
    pub index: usize,
}

/// A getter with the setter that belongs to it, if there is one.
#[derive(Debug, Clone, Copy, PartialEq, Eq, Structural)]
pub struct AccessorPair {
    pub getter: GetterHandle,
    pub setter: Option<SetterHandle>,
}

impl View for AccessorPair {
    type V = AccessorPair;

    open spec fn view(&self) -> AccessorPair {
        *self
    }
}

} // verus!
