//! The linker: an append-only map from `(interface, function)` keys to
//! host capability implementations, built once per engine configuration and
//! reused across instantiations. The linker checks nothing against any
//! particular component; that check belongs to instantiation.

use vstd::prelude::*;
use crate::engine::{Engine, EngineConfig};
use crate::errors::LinkError;
use crate::store::{SessionModel, Store};
use crate::types::{key_eq, CapabilityKey, FuncSignature, KeyModel, SignatureModel};
use crate::types::{Value, ValueModel};

verus! {

/// The host logic behind one capability, as a tagged behaviour: every
/// variant is a host function satisfying a `name() -> text` style import.
#[derive(Clone, Debug)]
pub enum CapabilityBehavior {
    /// Returns the session's name from the store.
    SessionName,
    /// Returns a fixed text, independent of the store.
    FixedText(String),
    /// Suspends the given number of times before returning the session's
    /// name; the suspensions matter only under the suspend-capable model.
    SuspendingSessionName(u64),
}

/// Mathematical model of a [`CapabilityBehavior`].
pub ghost enum BehaviorModel {
    SessionName,
    FixedText(Seq<char>),
    SuspendingSessionName(u64),
}

impl View for CapabilityBehavior {
    type V = BehaviorModel;

    open spec fn view(&self) -> BehaviorModel {
        match self {
            CapabilityBehavior::SessionName => BehaviorModel::SessionName,
            CapabilityBehavior::FixedText(s) => BehaviorModel::FixedText(s@),
            CapabilityBehavior::SuspendingSessionName(n) => {
                BehaviorModel::SuspendingSessionName(*n)
            },
        }
    }
}

/// The value a capability returns, as a function of its behaviour and the
/// session state it reads.
pub open spec fn behavior_result(b: BehaviorModel, session: SessionModel) -> ValueModel {
    match b {
        BehaviorModel::SessionName => ValueModel::Text(session.name),
        BehaviorModel::FixedText(s) => ValueModel::Text(s),
        BehaviorModel::SuspendingSessionName(_) => ValueModel::Text(session.name),
    }
}

/// How many times a capability suspends before returning, under the
/// suspend-capable model; under the blocking model it runs to completion
/// inline and this count is irrelevant.
pub open spec fn behavior_suspensions(b: BehaviorModel) -> nat {
    match b {
        BehaviorModel::SessionName => 0,
        BehaviorModel::FixedText(_) => 0,
        BehaviorModel::SuspendingSessionName(n) => n as nat,
    }
}

/// One host capability: the signature the host declares for it, and its
/// behaviour.
#[derive(Clone, Debug)]
pub struct Capability {
    pub signature: FuncSignature,
    pub behavior: CapabilityBehavior,
}

/// Mathematical model of a [`Capability`].
pub ghost struct CapabilityModel {
    pub signature: SignatureModel,
    pub behavior: BehaviorModel,
}

impl View for Capability {
    type V = CapabilityModel;

    open spec fn view(&self) -> CapabilityModel {
        CapabilityModel { signature: self.signature@, behavior: self.behavior@ }
    }
}

/// Runs one capability against the store it may read or write. The
/// behaviours here read the session state and leave the store unchanged.
pub fn run_capability(cap: &Capability, store: &mut Store) -> (r: Value)
    ensures
        final(store)@ == old(store)@,
        r@ == behavior_result(cap@.behavior, old(store)@.session),
{
    match &cap.behavior {
        CapabilityBehavior::SessionName => Value::Text(store.session.name.clone()),
        CapabilityBehavior::FixedText(s) => Value::Text(s.clone()),
        CapabilityBehavior::SuspendingSessionName(_) => Value::Text(store.session.name.clone()),
    }
}

/// One registered binding.
#[derive(Clone, Debug)]
pub struct Binding {
    pub key: CapabilityKey,
    pub capability: Capability,
}

/// Mathematical model of a [`Binding`].
pub ghost struct BindingModel {
    pub key: KeyModel,
    pub capability: CapabilityModel,
}

impl View for Binding {
    type V = BindingModel;

    open spec fn view(&self) -> BindingModel {
        BindingModel { key: self.key@, capability: self.capability@ }
    }
}

/// The linker itself.
#[derive(Debug)]
pub struct Linker {
    pub config: EngineConfig,
    pub bindings: Vec<Binding>,
    pub bundles: Vec<String>,
}

/// Mathematical model of a [`Linker`].
pub ghost struct LinkerModel {
    pub config: EngineConfig,
    pub bindings: Seq<BindingModel>,
    pub bundles: Seq<Seq<char>>,
}

impl View for Linker {
    type V = LinkerModel;

    open spec fn view(&self) -> LinkerModel {
        LinkerModel {
            config: self.config,
            bindings: self.bindings@.map_values(|b: Binding| b@),
            bundles: self.bundles@.map_values(|s: String| s@),
        }
    }
}

/// The one recognized standard-capability bundle: the ambient I/O bundle
/// (stdio inherited from the host process). Its contents are opaque here.
pub open spec fn known_bundle(name: Seq<char>) -> bool {
    name == "ambient-io"@
}

impl LinkerModel {
    /// Binding keys are registered at most once.
    pub open spec fn wf(self) -> bool {
        forall|i: int, j: int|
            0 <= i < j < self.bindings.len() ==> !key_eq(self.bindings[i].key, self.bindings[j].key)
    }

    /// Whether some capability is registered under this key.
    pub open spec fn has_binding(self, k: KeyModel) -> bool {
        exists|i: int| 0 <= i < self.bindings.len() && key_eq(self.bindings[i].key, k)
    }

    /// The capability registered under this key (meaningful when the key is
    /// bound in a well-formed linker).
    pub open spec fn binding_for(self, k: KeyModel) -> CapabilityModel {
        self.bindings[choose|i: int|
            0 <= i < self.bindings.len() && key_eq(self.bindings[i].key, k)].capability
    }

    /// Whether the named bundle has been registered.
    pub open spec fn has_bundle(self, name: Seq<char>) -> bool {
        exists|i: int| 0 <= i < self.bundles.len() && self.bundles[i] == name
    }
}

impl Linker {
    /// A fresh linker for one engine configuration, with nothing bound.
    pub fn new(engine: &Engine) -> (r: Linker)
        ensures
            r@.wf(),
            r@.config == engine.config,
            r@.bindings.len() == 0,
            r@.bundles.len() == 0,
    {
        Linker { config: engine.config, bindings: Vec::new(), bundles: Vec::new() }
    }

    /// Looks a key up among the registered bindings.
    pub fn find_binding(&self, key: &CapabilityKey) -> (r: Option<&Capability>)
        requires
            self@.wf(),
        ensures
            r matches Some(c) ==> self@.has_binding(key@) && c@ == self@.binding_for(key@),
            r is None ==> !self@.has_binding(key@),
    {
        let mut i: usize = 0;
        while i < self.bindings.len()
            invariant
                i <= self.bindings.len(),
                self@.wf(),
                forall|k: int| 0 <= k < i ==> !key_eq(self@.bindings[k].key, key@),
            decreases self.bindings.len() - i,
        {
            if crate::types::key_matches(&self.bindings[i].key, key) {
                proof {
                    let j = i as int;
                    assert(0 <= j < self@.bindings.len() && key_eq(self@.bindings[j].key, key@));
                    let w = choose|w: int|
                        0 <= w < self@.bindings.len() && key_eq(self@.bindings[w].key, key@);
                    assert(w == j);
                }
                return Some(&self.bindings[i].capability);
            }
            i += 1;
        }
        None
    }

    /// Whether the named bundle has been registered.
    pub fn has_bundle_named(&self, name: &String) -> (r: bool)
        ensures
            r == self@.has_bundle(name@),
    {
        let mut i: usize = 0;
        while i < self.bundles.len()
            invariant
                i <= self.bundles.len(),
                forall|k: int| 0 <= k < i ==> self@.bundles[k] != name@,
            decreases self.bundles.len() - i,
        {
            if self.bundles[i] == *name {
                proof {
                    let j = i as int;
                    assert(0 <= j < self@.bundles.len() && self@.bundles[j] == name@);
                }
                return true;
            }
            i += 1;
        }
        false
    }

    /// Registers one capability under a key; append-only, and a second
    /// registration under the same key is refused.
    pub fn bind(&mut self, key: CapabilityKey, capability: Capability) -> (r: Result<
        (),
        LinkError,
    >)
        requires
            old(self)@.wf(),
        ensures
            final(self)@.wf(),
            final(self)@.config == old(self)@.config,
            final(self)@.bundles == old(self)@.bundles,
            old(self)@.has_binding(key@) ==> {
                &&& r matches Err(e)
                &&& e@ matches crate::errors::LinkErrorModel::DuplicateBinding(k) && k == key@
                &&& final(self)@ == old(self)@
            },
            !old(self)@.has_binding(key@) ==> {
                &&& r is Ok
                &&& final(self)@.bindings == old(self)@.bindings.push(
                    BindingModel { key: key@, capability: capability@ },
                )
            },
    {
        if self.find_binding(&key).is_some() {
            return Err(LinkError::DuplicateBinding(key));
        }
        let ghost pre = self@;
        let ghost keyv = key@;
        let ghost capv = capability@;
        self.bindings.push(Binding { key, capability });
        proof {
            assert(self@.bindings =~= pre.bindings.push(
                BindingModel { key: keyv, capability: capv },
            ));
            assert forall|i: int, j: int| 0 <= i < j < self@.bindings.len() implies !key_eq(
                self@.bindings[i].key,
                self@.bindings[j].key,
            ) by {
                if j == self@.bindings.len() - 1 {
                    assert(!pre.has_binding(keyv));
                    assert(self@.bindings[i].key == pre.bindings[i].key);
                }
            }
        }
        Ok(())
    }

    /// Registers the named standard-capability bundle; unrecognized names
    /// are refused, and re-registering a bundle changes nothing.
    pub fn bind_standard_capabilities(&mut self, bundle: String) -> (r: Result<(), LinkError>)
        requires
            old(self)@.wf(),
        ensures
            final(self)@.wf(),
            final(self)@.config == old(self)@.config,
            final(self)@.bindings == old(self)@.bindings,
            !known_bundle(bundle@) ==> {
                &&& r matches Err(e)
                &&& e@ matches crate::errors::LinkErrorModel::UnknownBundle(n) && n == bundle@
                &&& final(self)@ == old(self)@
            },
            known_bundle(bundle@) && old(self)@.has_bundle(bundle@) ==> r is Ok && final(self)@
                == old(self)@,
            known_bundle(bundle@) && !old(self)@.has_bundle(bundle@) ==> r is Ok
                && final(self)@.bundles == old(self)@.bundles.push(bundle@),
    {
        let recognized: String = "ambient-io".to_owned();
        if !(bundle == recognized) {
            return Err(LinkError::UnknownBundle(bundle));
        }
        let mut i: usize = 0;
        while i < self.bundles.len()
            invariant
                i <= self.bundles.len(),
                self@ == old(self)@,
                old(self)@.wf(),
                known_bundle(bundle@),
                forall|k: int| 0 <= k < i ==> self@.bundles[k] != bundle@,
            decreases self.bundles.len() - i,
        {
            if self.bundles[i] == bundle {
                proof {
                    let j = i as int;
                    assert(0 <= j < self@.bundles.len() && self@.bundles[j] == bundle@);
                }
                return Ok(());
            }
            i += 1;
        }
        let ghost pre = self@;
        let ghost bundlev = bundle@;
        self.bundles.push(bundle);
        proof {
            assert(self@.bundles =~= pre.bundles.push(bundlev));
        }
        Ok(())
    }
}

impl CapabilityBehavior {
    /// A copy whose model is the same.
    pub fn duplicate(&self) -> (r: CapabilityBehavior)
        ensures
            r@ == self@,
    {
        match self {
            CapabilityBehavior::SessionName => CapabilityBehavior::SessionName,
            CapabilityBehavior::FixedText(s) => CapabilityBehavior::FixedText(s.clone()),
            CapabilityBehavior::SuspendingSessionName(n) => {
                CapabilityBehavior::SuspendingSessionName(*n)
            },
        }
    }
}

impl Capability {
    /// A copy whose model is the same.
    pub fn duplicate(&self) -> (r: Capability)
        ensures
            r@ == self@,
    {
        Capability { signature: self.signature.duplicate(), behavior: self.behavior.duplicate() }
    }
}

} // verus!
