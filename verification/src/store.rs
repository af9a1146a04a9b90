//! The store: the per-session container of the mutable host state that
//! capability implementations read, and of the resource table whose opaque
//! handles are the only view the sandboxed side gets of host resources.
//! A store is owned by exactly one session and never shared.

use vstd::prelude::*;
use crate::engine::{Engine, EngineConfig};

verus! {

/// The host state one session owns: here, the session's name value.
#[derive(Clone, Debug)]
pub struct SessionState {
    pub name: String,
}

/// Mathematical model of a [`SessionState`].
pub ghost struct SessionModel {
    pub name: Seq<char>,
}

impl View for SessionState {
    type V = SessionModel;

    open spec fn view(&self) -> SessionModel {
        SessionModel { name: self.name@ }
    }
}

/// A handle-indexed record of host-managed resources exposed to the
/// sandboxed side. Handles are never reused within one table.
#[derive(Clone, Debug)]
pub struct ResourceTable {
    live: Vec<u64>,
    next_handle: u64,
}

/// Mathematical model of a [`ResourceTable`].
pub ghost struct ResourceTableModel {
    pub live: Seq<u64>,
    pub next_handle: u64,
}

impl View for ResourceTable {
    type V = ResourceTableModel;

    closed spec fn view(&self) -> ResourceTableModel {
        ResourceTableModel { live: self.live@, next_handle: self.next_handle }
    }
}

impl ResourceTableModel {
    /// Every live handle was issued below the next one, so no two live
    /// handles collide and no future handle collides with a live one.
    pub open spec fn wf(self) -> bool {
        forall|i: int| 0 <= i < self.live.len() ==> self.live[i] < self.next_handle
    }
}

impl ResourceTable {
    /// An empty table.
    pub fn new() -> (r: ResourceTable)
        ensures
            r@.wf(),
            r@.live.len() == 0,
    {
        ResourceTable { live: Vec::new(), next_handle: 0 }
    }

    /// Issues a fresh handle, distinct from every live one. Returns `None`
    /// when the handle space is exhausted.
    pub fn allocate(&mut self) -> (r: Option<u64>)
        requires
            old(self)@.wf(),
        ensures
            final(self)@.wf(),
            r matches Some(h) ==> {
                &&& final(self)@.live == old(self)@.live.push(h)
                &&& forall|i: int| 0 <= i < old(self)@.live.len() ==> old(self)@.live[i] != h
            },
            r is None <==> old(self)@.next_handle == u64::MAX,
            r is None ==> final(self)@ == old(self)@,
    {
        if self.next_handle == u64::MAX {
            return None;
        }
        let h = self.next_handle;
        self.next_handle = self.next_handle + 1;
        self.live.push(h);
        Some(h)
    }

    /// Releases one live handle; releasing an unknown handle is refused.
    pub fn release(&mut self, handle: u64) -> (r: bool)
        requires
            old(self)@.wf(),
        ensures
            final(self)@.wf(),
            r ==> exists|i: int|
                0 <= i < old(self)@.live.len() && old(self)@.live[i] == handle
                    && final(self)@.live == old(self)@.live.remove(i),
            !r ==> {
                &&& final(self)@ == old(self)@
                &&& forall|i: int| 0 <= i < old(self)@.live.len() ==> old(self)@.live[i] != handle
            },
    {
        let mut i: usize = 0;
        while i < self.live.len()
            invariant
                i <= self.live.len(),
                self@ == old(self)@,
                old(self)@.wf(),
                forall|k: int| 0 <= k < i ==> self.live@[k] != handle,
            decreases self.live.len() - i,
        {
            if self.live[i] == handle {
                self.live.remove(i);
                proof {
                    let j = i as int;
                    assert(0 <= j < old(self)@.live.len() && old(self)@.live[j] == handle
                        && self@.live == old(self)@.live.remove(j));
                }
                return true;
            }
            i += 1;
        }
        false
    }

    /// How many handles are live.
    pub fn live_count(&self) -> (r: usize)
        ensures
            r == self@.live.len(),
    {
        self.live.len()
    }
}

/// The per-session store: engine configuration it was created under, the
/// exclusively owned session state, and the resource table.
#[derive(Debug)]
pub struct Store {
    pub config: EngineConfig,
    pub session: SessionState,
    pub resources: ResourceTable,
}

/// Mathematical model of a [`Store`].
pub ghost struct StoreModel {
    pub config: EngineConfig,
    pub session: SessionModel,
    pub resources: ResourceTableModel,
}

impl View for Store {
    type V = StoreModel;

    open spec fn view(&self) -> StoreModel {
        StoreModel { config: self.config, session: self.session@, resources: self.resources@ }
    }
}

impl StoreModel {
    pub open spec fn wf(self) -> bool {
        self.resources.wf()
    }
}

impl Store {
    /// One fresh store per logical session, bound to the engine's
    /// configuration, owning the given initial session state.
    pub fn new(engine: &Engine, initial: SessionState) -> (r: Store)
        ensures
            r@.wf(),
            r@.config == engine.config,
            r@.session == initial@,
            r@.resources.live.len() == 0,
    {
        Store { config: engine.config, session: initial, resources: ResourceTable::new() }
    }

    /// The host may read the session state directly between calls.
    pub fn session_state(&self) -> (r: &SessionState)
        ensures
            r@ == self@.session,
    {
        &self.session
    }

    /// The host may rewrite the session state directly between calls; the
    /// sandboxed side never gets such access.
    pub fn set_session_state(&mut self, state: SessionState)
        ensures
            final(self)@ == (StoreModel { session: state@, ..old(self)@ }),
    {
        self.session = state;
    }
}

} // verus!
