//! Isolates: each owns the execution contexts that were created in it.

use vstd::prelude::*;
use crate::context::{ExecutionContext, Globals, Property};
use crate::error::InitError;
use crate::handle::ContextHandle;
use crate::runtime::{EngineRuntime, RuntimeState};
use crate::table::NameTable;

verus! {

/// One isolated execution environment. The caller that created it owns it, and
/// with it every context inside.
pub struct Isolate {
    id: u64,
    contexts: Vec<ExecutionContext>,
    executing: bool,
}

impl Isolate {
    /// The identifier that the runtime issued for this isolate.
    pub closed spec fn spec_id(&self) -> u64 {
        self.id
    }

    /// The contexts of this isolate, in the order of their creation.
    pub closed spec fn contexts(&self) -> Seq<ExecutionContext> {
        self.contexts@
    }

    /// Whether a script is running in this isolate.
    pub closed spec fn spec_is_executing(&self) -> bool {
        self.executing
    }

    /// The invariant of an isolate: each context knows its isolate and its
    /// place in it.
    pub open spec fn wf(&self) -> bool {
        forall|i: int|
            0 <= i < self.contexts().len() ==> {
                &&& (#[trigger] self.contexts()[i]).wf()
                &&& self.contexts()[i].handle() == (ContextHandle {
                    isolate: self.id(),
                    index: i as usize,
                })
            }
    }

    /// Whether `handle` names a context of this isolate.
    pub open spec fn owns(&self, handle: ContextHandle) -> bool {
        handle.isolate == self.id() && handle.index < self.contexts().len()
    }

    /// The global object of the context that `handle` names.
    pub open spec fn globals_of(&self, handle: ContextHandle) -> Globals {
        self.contexts()[handle.index as int].globals()
    }

    /// This isolate is `before` but for the one context that `handle` names:
    /// every other context is the same, and none was added or removed.
    pub open spec fn differs_only_at(&self, before: Isolate, handle: ContextHandle) -> bool {
        &&& self.id() == before.id()
        &&& self.contexts().len() == before.contexts().len()
        &&& forall|i: int|
            0 <= i < before.contexts().len() && i != handle.index ==> self.contexts()[i]
                == before.contexts()[i]
    }

    /// Creates an isolate. The engine must be initialized, else the call is
    /// refused and changes nothing.
    pub fn create(runtime: &mut EngineRuntime) -> (r: Result<Isolate, InitError>)
        requires
            old(runtime).wf(),
            old(runtime).issued() < u64::MAX,
        ensures
            final(runtime).wf(),
            final(runtime).state() == old(runtime).state(),
            match r {
                Ok(isolate) => {
                    &&& old(runtime).state() == RuntimeState::Initialized
                    &&& isolate.id() == old(runtime).issued()
                    &&& !old(runtime).live().contains(isolate.id())
                    &&& final(runtime).live() == old(runtime).live().insert(isolate.id())
                    &&& final(runtime).issued() == old(runtime).issued() + 1
                    &&& isolate.wf()
                    &&& isolate.contexts().len() == 0
                    &&& !isolate.is_executing()
                },
                Err(e) => {
                    &&& old(runtime).state() != RuntimeState::Initialized
                    &&& e == InitError::NotInitialized
                    &&& final(runtime).live() == old(runtime).live()
                    &&& final(runtime).issued() == old(runtime).issued()
                },
            },
    {
        match runtime.register() {
            Ok(id) => Ok(Isolate { id, contexts: Vec::new(), executing: false }),
            Err(e) => Err(e),
        }
    }

    /// Releases the isolate and every context in it. No script may be running
    /// in it.
    pub fn dispose(self, runtime: &mut EngineRuntime)
        requires
            old(runtime).wf(),
            !self.is_executing(),
        ensures
            final(runtime).wf(),
            final(runtime).state() == old(runtime).state(),
            final(runtime).issued() == old(runtime).issued(),
            final(runtime).live() == old(runtime).live().remove(self.id()),
    {
        runtime.release(self.id);
    }

    /// The identifier that the runtime issued for this isolate.
    #[verifier::when_used_as_spec(spec_id)]
    pub fn id(&self) -> (r: u64)
        ensures
            r == self.spec_id(),
    {
        self.id
    }

    /// Whether a script is running in this isolate.
    #[verifier::when_used_as_spec(spec_is_executing)]
    pub fn is_executing(&self) -> (r: bool)
        ensures
            r == self.spec_is_executing(),
    {
        self.executing
    }

    /// How many contexts this isolate owns.
    pub fn context_count(&self) -> (r: usize)
        ensures
            r == self.contexts().len(),
    {
        self.contexts.len()
    }

    /// Whether `handle` names a context of this isolate.
    pub fn has_context(&self, handle: ContextHandle) -> (r: bool)
        ensures
            r == self.owns(handle),
    {
        handle.isolate == self.id && handle.index < self.contexts.len()
    }

    /// The context that `handle` names.
    pub fn context(&self, handle: ContextHandle) -> (r: &ExecutionContext)
        requires
            self.owns(handle),
        ensures
            *r == self.contexts()[handle.index as int],
    {
        &self.contexts[handle.index]
    }

    /// The context that `handle` names, to be changed in place. Whatever is
    /// done to it, every other context of the isolate stays as it is.
    pub fn context_mut(&mut self, handle: ContextHandle) -> (r: &mut ExecutionContext)
        requires
            old(self).owns(handle),
        ensures
            *r == old(self).contexts()[handle.index as int],
            final(self).contexts() == old(self).contexts().update(handle.index as int, *final(r)),
            final(self).differs_only_at(*old(self), handle),
            final(self).id() == old(self).id(),
            final(self).is_executing() == old(self).is_executing(),
    {
        &mut self.contexts[handle.index]
    }

    /// Takes a new context with the given global object into the isolate.
    pub(crate) fn adopt(&mut self, globals: NameTable<Property>) -> (r: ContextHandle)
        requires
            old(self).wf(),
            globals.wf(),
        ensures
            final(self).wf(),
            final(self).id() == old(self).id(),
            final(self).is_executing() == old(self).is_executing(),
            r == (ContextHandle {
                isolate: old(self).id(),
                index: old(self).contexts().len() as usize,
            }),
            final(self).contexts().len() == old(self).contexts().len() + 1,
            final(self).contexts().take(old(self).contexts().len() as int) == old(self).contexts(),
            final(self).globals_of(r) == globals@,
    {
        let handle = ContextHandle { isolate: self.id, index: self.contexts.len() };
        let context = ExecutionContext::new(handle, globals);
        self.contexts.push(context);
        assert(self.contexts().take(old(self).contexts().len() as int) =~= old(self).contexts());
        handle
    }

    /// Marks the isolate as running a script, or as running none.
    pub(crate) fn set_executing(&mut self, executing: bool)
        ensures
            final(self).contexts() == old(self).contexts(),
            final(self).id() == old(self).id(),
            final(self).is_executing() == executing,
    {
        self.executing = executing;
    }
}

} // verus!
