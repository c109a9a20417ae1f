//! The engine's process-wide lifecycle, and the record of which isolates live.

use vstd::prelude::*;
use crate::error::InitError;

verus! {

/// Where the engine stands in its lifecycle. It only ever moves down this list.
#[derive(Debug, Clone, Copy, PartialEq, Eq, Structural)]
pub enum RuntimeState {
    Uninitialized,
    PlatformAttached,
    Initialized,
    ShuttingDown,
    Disposed,
}

/// The state after `attach_platform`, or the error with which it is refused.
pub open spec fn attach_platform_of(state: RuntimeState) -> Result<RuntimeState, InitError> {
    match state {
        RuntimeState::Uninitialized => Ok(RuntimeState::PlatformAttached),
        _ => Err(InitError::AlreadyInitialized),
    }
}

/// The state after `initialize`, or the error with which it is refused.
pub open spec fn initialize_of(state: RuntimeState) -> Result<RuntimeState, InitError> {
    match state {
        RuntimeState::Uninitialized | RuntimeState::PlatformAttached => Ok(
            RuntimeState::Initialized,
        ),
        _ => Err(InitError::AlreadyInitialized),
    }
}

/// The state after `begin_shutdown`, or the error with which it is refused.
pub open spec fn begin_shutdown_of(state: RuntimeState) -> Result<RuntimeState, InitError> {
    match state {
        RuntimeState::Initialized => Ok(RuntimeState::ShuttingDown),
        _ => Err(InitError::NotInitialized),
    }
}

/// The state after `shutdown`, or the error with which it is refused.
pub open spec fn shutdown_of(state: RuntimeState) -> Result<RuntimeState, InitError> {
    match state {
        RuntimeState::Initialized | RuntimeState::ShuttingDown => Ok(RuntimeState::Disposed),
        _ => Err(InitError::NotInitialized),
    }
}

/// The engine as the process sees it. The embedder keeps one for the process.
pub struct EngineRuntime {
    state: RuntimeState,
    live: Vec<u64>,
    issued: u64,
}

impl EngineRuntime {
    /// Where the engine stands in its lifecycle.
    pub closed spec fn spec_state(&self) -> RuntimeState {
        self.state
    }

    /// The identifiers of the isolates that were created and not yet disposed.
    pub closed spec fn live(&self) -> Set<u64> {
        self.live@.to_set()
    }

    /// How many isolates were created so far; the next one gets this number.
    pub closed spec fn spec_issued(&self) -> u64 {
        self.issued
    }

    /// The invariant of the runtime: isolates live only while the engine is
    /// initialized, and each carries a number that was issued.
    pub closed spec fn wf(&self) -> bool {
        &&& self.live@.no_duplicates()
        &&& forall|i: int| 0 <= i < self.live@.len() ==> self.live@[i] < self.issued
        &&& self.live@.len() > 0 ==> self.state == RuntimeState::Initialized
    }

    /// While an isolate lives, the engine is initialized; and no isolate that
    /// lives carries a number that is still to be issued.
    pub proof fn lemma_live_implies_initialized(&self, id: u64)
        requires
            self.wf(),
            self.live().contains(id),
        ensures
            self.state() == RuntimeState::Initialized,
            id < self.issued(),
            self.live().finite(),
    {
        let i = choose|i: int| 0 <= i < self.live@.len() && self.live@[i] == id;
        assert(self.live@[i] < self.issued);
    }

    /// An engine that has not been touched.
    pub fn new() -> (r: EngineRuntime)
        ensures
            r.wf(),
            r.state() == RuntimeState::Uninitialized,
            r.live() == Set::<u64>::empty(),
            r.issued() == 0,
    {
        let r = EngineRuntime { state: RuntimeState::Uninitialized, live: Vec::new(), issued: 0 };
        assert(r.live@.to_set() =~= Set::<u64>::empty());
        r
    }

    /// Where the engine stands in its lifecycle.
    #[verifier::when_used_as_spec(spec_state)]
    pub fn state(&self) -> (r: RuntimeState)
        ensures
            r == self.spec_state(),
    {
        self.state
    }

    /// How many isolates were created so far; the next one gets this number.
    #[verifier::when_used_as_spec(spec_issued)]
    pub fn issued(&self) -> (r: u64)
        ensures
            r == self.spec_issued(),
    {
        self.issued
    }

    /// How many isolates live.
    pub fn live_isolates(&self) -> (r: usize)
        requires
            self.wf(),
        ensures
            r == self.live().len(),
    {
        proof {
            self.live@.unique_seq_to_set();
        }
        self.live.len()
    }

    /// Whether the isolate with this identifier lives.
    pub fn is_live(&self, id: u64) -> (r: bool)
        ensures
            r == self.live().contains(id),
    {
        let mut i: usize = 0;
        while i < self.live.len()
            invariant
                i <= self.live.len(),
                forall|j: int| 0 <= j < i ==> self.live@[j] != id,
            decreases self.live.len() - i,
        {
            if self.live[i] == id {
                assert(self.live@.contains(id));
                return true;
            }
            i += 1;
        }
        false
    }

    /// Attaches the platform: the first half of `initialize`. Refused once a
    /// platform has been attached.
    pub fn attach_platform(&mut self) -> (r: Result<(), InitError>)
        requires
            old(self).wf(),
        ensures
            final(self).wf(),
            final(self).live() == old(self).live(),
            final(self).issued() == old(self).issued(),
            match attach_platform_of(old(self).state()) {
                Ok(next) => r is Ok && final(self).state() == next,
                Err(e) => r == Err::<(), InitError>(e) && final(self).state() == old(self).state(),
            },
    {
        match self.state {
            RuntimeState::Uninitialized => {
                self.state = RuntimeState::PlatformAttached;
                Ok(())
            },
            _ => Err(InitError::AlreadyInitialized),
        }
    }

    /// Brings the engine to its ready state, attaching the platform if that
    /// has not been done. Refused if the engine has been initialized before,
    /// whether or not it has been shut down since.
    pub fn initialize(&mut self) -> (r: Result<(), InitError>)
        requires
            old(self).wf(),
        ensures
            final(self).wf(),
            final(self).live() == old(self).live(),
            final(self).issued() == old(self).issued(),
            match initialize_of(old(self).state()) {
                Ok(next) => r is Ok && final(self).state() == next,
                Err(e) => r == Err::<(), InitError>(e) && final(self).state() == old(self).state(),
            },
    {
        match self.state {
            RuntimeState::Uninitialized | RuntimeState::PlatformAttached => {
                self.state = RuntimeState::Initialized;
                Ok(())
            },
            _ => Err(InitError::AlreadyInitialized),
        }
    }

    /// Starts the shutdown: the first half of `shutdown`. The caller has
    /// disposed every isolate. Refused unless the engine is initialized.
    pub fn begin_shutdown(&mut self) -> (r: Result<(), InitError>)
        requires
            old(self).wf(),
            old(self).live() == Set::<u64>::empty(),
        ensures
            final(self).wf(),
            final(self).live() == old(self).live(),
            final(self).issued() == old(self).issued(),
            match begin_shutdown_of(old(self).state()) {
                Ok(next) => r is Ok && final(self).state() == next,
                Err(e) => r == Err::<(), InitError>(e) && final(self).state() == old(self).state(),
            },
    {
        proof {
            self.lemma_none_live();
        }
        match self.state {
            RuntimeState::Initialized => {
                self.state = RuntimeState::ShuttingDown;
                Ok(())
            },
            _ => Err(InitError::NotInitialized),
        }
    }

    /// Releases the platform and ends the engine's life in this process. The
    /// caller has disposed every isolate. Refused unless the engine is
    /// initialized or already shutting down.
    pub fn shutdown(&mut self) -> (r: Result<(), InitError>)
        requires
            old(self).wf(),
            old(self).live() == Set::<u64>::empty(),
        ensures
            final(self).wf(),
            final(self).live() == old(self).live(),
            final(self).issued() == old(self).issued(),
            match shutdown_of(old(self).state()) {
                Ok(next) => r is Ok && final(self).state() == next,
                Err(e) => r == Err::<(), InitError>(e) && final(self).state() == old(self).state(),
            },
    {
        proof {
            self.lemma_none_live();
        }
        match self.state {
            RuntimeState::Initialized | RuntimeState::ShuttingDown => {
                self.state = RuntimeState::Disposed;
                Ok(())
            },
            _ => Err(InitError::NotInitialized),
        }
    }

    proof fn lemma_none_live(&self)
        requires
            self.live() == Set::<u64>::empty(),
        ensures
            self.live@.len() == 0,
    {
        if self.live@.len() > 0 {
            assert(self.live@.contains(self.live@[0]));
            assert(self.live().contains(self.live@[0]));
        }
    }

    /// Records a new isolate and issues its identifier.
    pub(crate) fn register(&mut self) -> (r: Result<u64, InitError>)
        requires
            old(self).wf(),
            old(self).issued() < u64::MAX,
        ensures
            final(self).wf(),
            final(self).state() == old(self).state(),
            match r {
                Ok(id) => {
                    &&& old(self).state() == RuntimeState::Initialized
                    &&& id == old(self).issued()
                    &&& !old(self).live().contains(id)
                    &&& final(self).live() == old(self).live().insert(id)
                    &&& final(self).issued() == old(self).issued() + 1
                },
                Err(e) => {
                    &&& old(self).state() != RuntimeState::Initialized
                    &&& e == InitError::NotInitialized
                    &&& final(self).live() == old(self).live()
                    &&& final(self).issued() == old(self).issued()
                },
            },
    {
        match self.state {
            RuntimeState::Initialized => {
                let id: u64 = self.issued;
                proof {
                    lemma_push_fresh(self.live@, id);
                }
                self.live.push(id);
                self.issued = id + 1;
                Ok(id)
            },
            _ => Err(InitError::NotInitialized),
        }
    }

    /// Strikes an isolate from the record. Tells whether it was there.
    pub(crate) fn release(&mut self, id: u64) -> (r: bool)
        requires
            old(self).wf(),
        ensures
            final(self).wf(),
            final(self).state() == old(self).state(),
            final(self).issued() == old(self).issued(),
            final(self).live() == old(self).live().remove(id),
            r == old(self).live().contains(id),
    {
        let mut i: usize = 0;
        while i < self.live.len()
            invariant
                *self == *old(self),
                self.wf(),
                i <= self.live.len(),
                forall|j: int| 0 <= j < i ==> self.live@[j] != id,
            decreases self.live.len() - i,
        {
            if self.live[i] == id {
                proof {
                    lemma_remove_at(self.live@, i as int);
                }
                self.live.remove(i);
                return true;
            }
            i += 1;
        }
        assert(self.live@.to_set().remove(id) =~= self.live@.to_set());
        false
    }
}

/// Adding a number to a sequence that holds each of its numbers once, all of
/// them smaller, keeps it so, and adds the number to the set of its elements.
proof fn lemma_push_fresh(s: Seq<u64>, id: u64)
    requires
        s.no_duplicates(),
        forall|i: int| 0 <= i < s.len() ==> s[i] < id,
    ensures
        !s.to_set().contains(id),
        s.push(id).no_duplicates(),
        s.push(id).to_set() == s.to_set().insert(id),
{
    let t = s.push(id);
    assert(!s.contains(id));
    assert forall|x: u64| t.to_set().contains(x) <==> s.to_set().insert(id).contains(x) by {
        if t.contains(x) {
            let i = choose|i: int| 0 <= i < t.len() && t[i] == x;
            if i < s.len() {
                assert(s[i] == x);
            }
        }
        if s.contains(x) {
            let i = choose|i: int| 0 <= i < s.len() && s[i] == x;
            assert(t[i] == x);
        }
        if x == id {
            assert(t[s.len() as int] == x);
        }
    }
    assert(t.to_set() =~= s.to_set().insert(id));
}

/// Removing one element from a sequence that holds each of its elements once
/// keeps it so, and removes the element from the set of its elements.
proof fn lemma_remove_at(s: Seq<u64>, i: int)
    requires
        s.no_duplicates(),
        0 <= i < s.len(),
    ensures
        s.to_set().contains(s[i]),
        s.remove(i).no_duplicates(),
        s.remove(i).to_set() == s.to_set().remove(s[i]),
        forall|k: int| 0 <= k < s.remove(i).len() ==> s.contains(#[trigger] s.remove(i)[k]),
{
    let t = s.remove(i);
    assert(s.contains(s[i]));
    assert forall|k: int| 0 <= k < t.len() implies s.contains(#[trigger] t[k]) by {
        let k0 = if k < i { k } else { k + 1 };
        assert(s[k0] == t[k]);
    }
    assert forall|x: u64| t.to_set().contains(x) <==> s.to_set().remove(s[i]).contains(x) by {
        if t.contains(x) {
            let k = choose|k: int| 0 <= k < t.len() && t[k] == x;
            let k0 = if k < i { k } else { k + 1 };
            assert(s[k0] == x);
        }
        if s.contains(x) && x != s[i] {
            let k0 = choose|k0: int| 0 <= k0 < s.len() && s[k0] == x;
            let k = if k0 < i { k0 } else { k0 - 1 };
            assert(t[k] == x);
        }
    }
    assert(t.to_set() =~= s.to_set().remove(s[i]));
}

} // verus!
