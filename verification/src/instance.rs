//! The instance binder: for every import the component declares, a binding
//! is looked up in the linker under the `(interface, function)` key; a
//! missing binding or a signature that does not structurally match fails the
//! whole instantiation, and no export becomes callable. Two variants exist,
//! selected by the engine configuration the store, component, and linker
//! were all created under, never by the caller's preference at call time.

use vstd::prelude::*;
use crate::component::{body_wf, CompiledComponent, GuestBody, GuestBodyModel, GuestStep, ImageModel};
use crate::engine::EngineConfig;
use crate::errors::{InstantiationError, InstantiationErrorModel};
use crate::linker::{behavior_suspensions, Capability, CapabilityModel, Linker, LinkerModel};
use crate::store::Store;
use crate::types::{
    key_eq, signature_eq, ContractModel, ExportDecl, ExportModel, ImportModel, SignatureModel,
};

verus! {

/// What one declared import resolved to inside a live instance.
#[derive(Clone, Debug)]
pub enum ResolvedImport {
    /// An explicitly bound host capability.
    Host(Capability),
    /// Covered by a registered standard-capability bundle; its contents
    /// are opaque here.
    Ambient,
}

/// Mathematical model of a [`ResolvedImport`].
pub ghost enum ResolvedImportModel {
    Host(CapabilityModel),
    Ambient,
}

impl View for ResolvedImport {
    type V = ResolvedImportModel;

    open spec fn view(&self) -> ResolvedImportModel {
        match self {
            ResolvedImport::Host(c) => ResolvedImportModel::Host(c@),
            ResolvedImport::Ambient => ResolvedImportModel::Ambient,
        }
    }
}

/// How one declared import fares against a linker.
pub ghost enum ImportResolution {
    /// Its interface is covered by a registered bundle.
    Ambient,
    /// An explicit binding exists and its signature matches.
    Host(CapabilityModel),
    /// No bundle covers it and no binding carries its key.
    Unresolved,
    /// A binding carries its key but the signature differs.
    Mismatch { expected: SignatureModel, actual: SignatureModel },
}

/// Resolves one import against a linker: a registered bundle covers every
/// function of its interface; otherwise the explicit binding under the
/// import's key decides, and its signature must structurally match.
pub open spec fn resolve_import(l: LinkerModel, imp: ImportModel) -> ImportResolution {
    if l.has_bundle(imp.key.interface) {
        ImportResolution::Ambient
    } else if !l.has_binding(imp.key) {
        ImportResolution::Unresolved
    } else {
        let c = l.binding_for(imp.key);
        if signature_eq(c.signature, imp.signature) {
            ImportResolution::Host(c)
        } else {
            ImportResolution::Mismatch { expected: imp.signature, actual: c.signature }
        }
    }
}

/// Whether one import resolves.
pub open spec fn import_ok(l: LinkerModel, imp: ImportModel) -> bool {
    match resolve_import(l, imp) {
        ImportResolution::Ambient => true,
        ImportResolution::Host(_) => true,
        ImportResolution::Unresolved => false,
        ImportResolution::Mismatch { .. } => false,
    }
}

/// What a resolving import becomes inside the instance (meaningful when
/// `import_ok` holds).
pub open spec fn resolved_model(l: LinkerModel, imp: ImportModel) -> ResolvedImportModel {
    match resolve_import(l, imp) {
        ImportResolution::Host(c) => ResolvedImportModel::Host(c),
        _ => ResolvedImportModel::Ambient,
    }
}

/// Every import of the contract resolves against the linker.
pub open spec fn all_imports_ok(c: ContractModel, l: LinkerModel) -> bool {
    forall|i: int| 0 <= i < c.imports.len() ==> import_ok(l, #[trigger] c.imports[i])
}

/// The error a failing instantiation reports: it names the first import,
/// in contract order, that does not resolve, and says how it failed.
pub open spec fn first_failure_reported(
    c: ContractModel,
    l: LinkerModel,
    e: InstantiationErrorModel,
) -> bool {
    exists|i: int|
        #![auto]
        0 <= i < c.imports.len() && (forall|j: int|
            0 <= j < i ==> import_ok(l, #[trigger] c.imports[j])) && failure_names_import(
            l,
            c.imports[i],
            e,
        )
}

/// The failure reported for one unresolving import.
pub open spec fn failure_names_import(
    l: LinkerModel,
    imp: ImportModel,
    e: InstantiationErrorModel,
) -> bool {
    match resolve_import(l, imp) {
        ImportResolution::Unresolved => e == InstantiationErrorModel::UnresolvedImport(imp.key),
        ImportResolution::Mismatch { expected, actual } => e
            == (InstantiationErrorModel::TypeMismatch { key: imp.key, expected, actual }),
        _ => false,
    }
}

/// One suspendable call in flight on an instance.
#[derive(Clone, Copy, PartialEq, Eq, Structural, Debug)]
pub struct ActiveCall {
    /// Which export is being called.
    pub export_index: usize,
    /// The next body step to run.
    pub next_step: usize,
    /// How many suspensions of the capability at the next step have
    /// already been consumed.
    pub suspensions_done: u64,
}

/// The life of an instance: ready between calls, executing while a
/// suspendable call is in flight, and poisoned — terminally — after a trap
/// or an abandoned call.
#[derive(Clone, Copy, PartialEq, Eq, Structural, Debug)]
pub enum Status {
    Ready,
    Executing(ActiveCall),
    Poisoned,
}

/// The transitions the status state machine allows.
pub open spec fn status_transition_ok(pre: Status, post: Status) -> bool {
    match pre {
        Status::Ready => true,
        Status::Executing(_) => true,
        Status::Poisoned => post == Status::Poisoned,
    }
}

/// Law: poison is terminal — no allowed transition leaves it.
pub proof fn lemma_poison_is_terminal(pre: Status, post: Status)
    requires
        pre == Status::Poisoned,
        status_transition_ok(pre, post),
    ensures
        post == Status::Poisoned,
{
}

/// A live, callable binding of a compiled component to a store: its
/// exports, their bodies, the resolved import table, and its status.
#[derive(Debug)]
pub struct Instance {
    pub config: EngineConfig,
    pub exports: Vec<ExportDecl>,
    pub bodies: Vec<GuestBody>,
    pub imports: Vec<ResolvedImport>,
    pub status: Status,
}

/// Mathematical model of an [`Instance`].
pub ghost struct InstanceModel {
    pub config: EngineConfig,
    pub exports: Seq<ExportModel>,
    pub bodies: Seq<GuestBodyModel>,
    pub imports: Seq<ResolvedImportModel>,
    pub status: Status,
}

impl View for Instance {
    type V = InstanceModel;

    open spec fn view(&self) -> InstanceModel {
        InstanceModel {
            config: self.config,
            exports: self.exports@.map_values(|e: ExportDecl| e@),
            bodies: self.bodies@.map_values(|b: GuestBody| b@),
            imports: self.imports@.map_values(|i: ResolvedImport| i@),
            status: self.status,
        }
    }
}

/// How many times the capability behind one body step suspends before
/// returning, under the suspend-capable model.
pub open spec fn step_suspensions(imports: Seq<ResolvedImportModel>, step: GuestStep) -> nat {
    match step {
        GuestStep::CallImport(k) => match imports[k as int] {
            ResolvedImportModel::Host(cap) => behavior_suspensions(cap.behavior),
            ResolvedImportModel::Ambient => 0,
        },
    }
}

/// The suspensions a call still meets from a step position to the end of
/// the body.
pub open spec fn suspensions_from(
    imports: Seq<ResolvedImportModel>,
    body: GuestBodyModel,
    from: int,
) -> nat
    decreases body.steps.len() - from,
{
    if from < 0 || from >= body.steps.len() {
        0
    } else {
        step_suspensions(imports, body.steps[from]) + suspensions_from(imports, body, from + 1)
    }
}

impl InstanceModel {
    /// The resumptions a call in flight still needs before it completes.
    pub open spec fn remaining_suspensions(self, ac: ActiveCall) -> int {
        suspensions_from(self.imports, self.bodies[ac.export_index as int], ac.next_step as int)
            - ac.suspensions_done
    }

    /// A call in flight points at a real export and a step position
    /// within its body, and has consumed no more suspensions of the
    /// current step than that step offers.
    pub open spec fn active_call_wf(self, ac: ActiveCall) -> bool {
        &&& ac.export_index < self.bodies.len()
        &&& ac.next_step <= self.bodies[ac.export_index as int].steps.len()
        &&& ac.next_step < self.bodies[ac.export_index as int].steps.len()
            ==> ac.suspensions_done <= step_suspensions(
            self.imports,
            self.bodies[ac.export_index as int].steps[ac.next_step as int],
        )
        &&& ac.next_step == self.bodies[ac.export_index as int].steps.len()
            ==> ac.suspensions_done == 0
    }

    /// Export names unique, one body per export, every body's steps point
    /// at resolved imports, any in-flight call well placed, and no call in
    /// flight unless the configuration allows suspension.
    pub open spec fn wf(self) -> bool {
        &&& forall|i: int, j: int|
            0 <= i < j < self.exports.len() ==> self.exports[i].name != self.exports[j].name
        &&& self.bodies.len() == self.exports.len()
        &&& forall|i: int|
            0 <= i < self.bodies.len() ==> body_wf(#[trigger] self.bodies[i], self.imports.len() as int)
        &&& (self.status matches Status::Executing(ac) ==> self.active_call_wf(ac))
        &&& (self.status is Executing ==> self.config.async_execution)
    }
}

/// The blocking variant of instantiation is permitted when store, compiled
/// component, and linker all carry one engine configuration and that
/// configuration does not select suspend-capable execution.
pub open spec fn sync_instantiation_permitted(
    s: EngineConfig,
    c: EngineConfig,
    l: EngineConfig,
) -> bool {
    s == c && c == l && !s.async_execution
}

/// The suspend-capable variant is permitted under one configuration that
/// does select suspend-capable execution.
pub open spec fn async_instantiation_permitted(
    s: EngineConfig,
    c: EngineConfig,
    l: EngineConfig,
) -> bool {
    s == c && c == l && s.async_execution
}

/// What a successful instantiation hands back.
pub open spec fn instance_matches(
    inst: InstanceModel,
    config: EngineConfig,
    image: ImageModel,
    l: LinkerModel,
) -> bool {
    &&& inst.config == config
    &&& inst.exports == image.contract.exports
    &&& inst.bodies == image.bodies
    &&& inst.imports == Seq::new(
        image.contract.imports.len(),
        |i: int| resolved_model(l, image.contract.imports[i]),
    )
    &&& inst.status == Status::Ready
}

/// Resolves every import of the component's contract against the linker,
/// in contract order, stopping at the first failure.
fn resolve_imports(component: &CompiledComponent, linker: &Linker) -> (r: Result<
    Vec<ResolvedImport>,
    InstantiationError,
>)
    requires
        linker@.wf(),
    ensures
        r is Ok <==> all_imports_ok(component@.image.contract, linker@),
        r matches Ok(v) ==> v@.map_values(|x: ResolvedImport| x@) == Seq::new(
            component@.image.contract.imports.len(),
            |i: int| resolved_model(linker@, component@.image.contract.imports[i]),
        ),
        r matches Err(e) ==> first_failure_reported(component@.image.contract, linker@, e@),
{
    let contract = &component.image.contract;
    let ghost cm = component@.image.contract;
    let mut out: Vec<ResolvedImport> = Vec::new();
    let mut i: usize = 0;
    while i < contract.imports.len()
        invariant
            linker@.wf(),
            i <= contract.imports.len(),
            cm == component@.image.contract,
            contract == &component.image.contract,
            out@.len() == i,
            forall|j: int| 0 <= j < i ==> import_ok(linker@, #[trigger] cm.imports[j]),
            forall|j: int|
                0 <= j < i ==> out@.map_values(|x: ResolvedImport| x@)[j] == resolved_model(
                    linker@,
                    cm.imports[j],
                ),
        decreases contract.imports.len() - i,
    {
        let imp = &contract.imports[i];
        proof {
            let ii = i as int;
            assert(cm.imports[ii] == contract.imports@[ii]@);
        }
        if linker.has_bundle_named(&imp.key.interface) {
            out.push(ResolvedImport::Ambient);
        } else {
            match linker.find_binding(&imp.key) {
                None => {
                    proof {
                        let ii = i as int;
                        assert(resolve_import(linker@, cm.imports[ii])
                            is Unresolved);
                    }
                    return Err(InstantiationError::UnresolvedImport(imp.key.duplicate()));
                },
                Some(cap) => {
                    let matches_sig = crate::types::signature_matches(
                        &cap.signature,
                        &imp.signature,
                    );
                    if matches_sig {
                        out.push(ResolvedImport::Host(cap.duplicate()));
                    } else {
                        proof {
                            let ii = i as int;
                            assert(resolve_import(linker@, cm.imports[ii]) matches
                                ImportResolution::Mismatch { expected, actual } && expected
                                == cm.imports[ii].signature && actual == cap@.signature);
                        }
                        return Err(InstantiationError::TypeMismatch {
                            key: imp.key.duplicate(),
                            expected: imp.signature.duplicate(),
                            actual: cap.signature.duplicate(),
                        });
                    }
                },
            }
        }
        i += 1;
    }
    proof {
        assert(out@.map_values(|x: ResolvedImport| x@) =~= Seq::new(
            cm.imports.len(),
            |i: int| resolved_model(linker@, cm.imports[i]),
        ));
    }
    Ok(out)
}

/// Copies a list of export declarations, model for model.
fn duplicate_exports(v: &Vec<ExportDecl>) -> (r: Vec<ExportDecl>)
    ensures
        r@.map_values(|e: ExportDecl| e@) == v@.map_values(|e: ExportDecl| e@),
{
    let mut out: Vec<ExportDecl> = Vec::new();
    let mut i: usize = 0;
    while i < v.len()
        invariant
            i <= v.len(),
            out@.len() == i,
            forall|j: int| 0 <= j < i ==> out@[j]@ == v@[j]@,
        decreases v.len() - i,
    {
        out.push(v[i].duplicate());
        i += 1;
    }
    proof {
        assert(out@.map_values(|e: ExportDecl| e@) =~= v@.map_values(|e: ExportDecl| e@));
    }
    out
}

/// Copies a list of guest bodies, model for model.
fn duplicate_bodies(v: &Vec<GuestBody>) -> (r: Vec<GuestBody>)
    ensures
        r@.map_values(|b: GuestBody| b@) == v@.map_values(|b: GuestBody| b@),
{
    let mut out: Vec<GuestBody> = Vec::new();
    let mut i: usize = 0;
    while i < v.len()
        invariant
            i <= v.len(),
            out@.len() == i,
            forall|j: int| 0 <= j < i ==> out@[j]@ == v@[j]@,
        decreases v.len() - i,
    {
        out.push(v[i].duplicate());
        i += 1;
    }
    proof {
        assert(out@.map_values(|b: GuestBody| b@) =~= v@.map_values(|b: GuestBody| b@));
    }
    out
}

/// The common work of both variants, once the variant's configuration
/// check has passed.
fn bind_instance(store: &Store, component: &CompiledComponent, linker: &Linker) -> (r: Result<
    Instance,
    InstantiationError,
>)
    requires
        component@.wf(),
        linker@.wf(),
        store@.config == component@.config,
    ensures
        r is Ok <==> all_imports_ok(component@.image.contract, linker@),
        r matches Ok(inst) ==> instance_matches(inst@, store@.config, component@.image, linker@)
            && inst@.wf(),
        r matches Err(e) ==> first_failure_reported(component@.image.contract, linker@, e@),
{
    let resolved = match resolve_imports(component, linker) {
        Ok(v) => v,
        Err(e) => {
            return Err(e);
        },
    };
    let exports = duplicate_exports(&component.image.contract.exports);
    let bodies = duplicate_bodies(&component.image.bodies);
    let inst = Instance {
        config: store.config,
        exports,
        bodies,
        imports: resolved,
        status: Status::Ready,
    };
    proof {
        assert(inst@.exports == component@.image.contract.exports);
        assert(inst@.bodies == component@.image.bodies);
        assert(inst@.imports.len() == component@.image.contract.imports.len());
    }
    Ok(inst)
}

/// Binds a compiled component to a store through a linker, running to
/// completion on the calling thread: the blocking variant, selected by an
/// engine configuration without suspend-capable execution.
pub fn instantiate(store: &Store, component: &CompiledComponent, linker: &Linker) -> (r: Result<
    Instance,
    InstantiationError,
>)
    requires
        component@.wf(),
        linker@.wf(),
    ensures
        r is Ok <==> sync_instantiation_permitted(store@.config, component@.config, linker@.config)
            && all_imports_ok(component@.image.contract, linker@),
        r matches Ok(inst) ==> instance_matches(inst@, store@.config, component@.image, linker@)
            && inst@.wf(),
        !sync_instantiation_permitted(store@.config, component@.config, linker@.config) ==> (r
            matches Err(e) && e@ == InstantiationErrorModel::IncompatibleEngineConfig),
        sync_instantiation_permitted(store@.config, component@.config, linker@.config)
            && !all_imports_ok(component@.image.contract, linker@) ==> (r matches Err(e)
            && first_failure_reported(component@.image.contract, linker@, e@)),
{
    if !(store.config == component.config && component.config == linker.config)
        || store.config.async_execution {
        return Err(InstantiationError::IncompatibleEngineConfig);
    }
    bind_instance(store, component, linker)
}

/// The suspend-capable variant: permitted only under a configuration that
/// selects suspend-capable execution. No capability of this library runs
/// at bind time, so the operation completes without suspending and the
/// result is returned directly; calls on the instance are what suspend.
pub fn instantiate_async(store: &Store, component: &CompiledComponent, linker: &Linker) -> (r:
    Result<Instance, InstantiationError>)
    requires
        component@.wf(),
        linker@.wf(),
    ensures
        r is Ok <==> async_instantiation_permitted(store@.config, component@.config, linker@.config)
            && all_imports_ok(component@.image.contract, linker@),
        r matches Ok(inst) ==> instance_matches(inst@, store@.config, component@.image, linker@)
            && inst@.wf(),
        !async_instantiation_permitted(store@.config, component@.config, linker@.config) ==> (r
            matches Err(e) && e@ == InstantiationErrorModel::IncompatibleEngineConfig),
        async_instantiation_permitted(store@.config, component@.config, linker@.config)
            && !all_imports_ok(component@.image.contract, linker@) ==> (r matches Err(e)
            && first_failure_reported(component@.image.contract, linker@, e@)),
{
    if !(store.config == component.config && component.config == linker.config)
        || !store.config.async_execution {
        return Err(InstantiationError::IncompatibleEngineConfig);
    }
    bind_instance(store, component, linker)
}

/// In a well-formed linker, every index whose key matches carries the one
/// capability the lookup denotes.
pub proof fn lemma_binding_for_unique(l: LinkerModel, k: crate::types::KeyModel, i: int)
    requires
        l.wf(),
        0 <= i < l.bindings.len(),
        key_eq(l.bindings[i].key, k),
    ensures
        l.has_binding(k),
        l.binding_for(k) == l.bindings[i].capability,
{
    assert(l.has_binding(k));
    let w = choose|w: int| 0 <= w < l.bindings.len() && key_eq(l.bindings[w].key, k);
    if w != i {
        assert(key_eq(l.bindings[i].key, l.bindings[w].key));
        assert(false);
    }
}

/// Law: binding completeness. When every import of a well-formed contract
/// resolves against a well-formed linker, and one explicitly bound import
/// has its binding removed, instantiation can no longer succeed, and the
/// failure reported is `UnresolvedImport` naming exactly that import.
pub proof fn lemma_removed_binding_fails(
    c: ContractModel,
    l: LinkerModel,
    l2: LinkerModel,
    n: int,
    bi: int,
)
    requires
        c.wf(),
        l.wf(),
        all_imports_ok(c, l),
        0 <= n < c.imports.len(),
        resolve_import(l, c.imports[n]) is Host,
        l2.config == l.config,
        l2.bundles == l.bundles,
        0 <= bi < l.bindings.len(),
        key_eq(l.bindings[bi].key, c.imports[n].key),
        l2.bindings == l.bindings.remove(bi),
    ensures
        l2.wf(),
        !all_imports_ok(c, l2),
        resolve_import(l2, c.imports[n]) is Unresolved,
        forall|e: InstantiationErrorModel|
            first_failure_reported(c, l2, e) ==> e == InstantiationErrorModel::UnresolvedImport(
                c.imports[n].key,
            ),
{
    // l2 keeps the linker invariant: its bindings are a sub-list of l's.
    assert forall|x: int, y: int| 0 <= x < y < l2.bindings.len() implies !key_eq(
        l2.bindings[x].key,
        l2.bindings[y].key,
    ) by {
        let xo = if x < bi { x } else { x + 1 };
        let yo = if y < bi { y } else { y + 1 };
        assert(l2.bindings[x] == l.bindings[xo]);
        assert(l2.bindings[y] == l.bindings[yo]);
    }
    // The n-th import no longer resolves: no bundle covered it, and the
    // only binding with its key is gone.
    assert(!l.has_bundle(c.imports[n].key.interface));
    assert(!l2.has_bundle(c.imports[n].key.interface));
    assert forall|x: int| 0 <= x < l2.bindings.len() implies !key_eq(
        l2.bindings[x].key,
        c.imports[n].key,
    ) by {
        let xo = if x < bi { x } else { x + 1 };
        assert(l2.bindings[x] == l.bindings[xo]);
        if key_eq(l.bindings[xo].key, c.imports[n].key) {
            assert(key_eq(l.bindings[xo].key, l.bindings[bi].key));
            assert(false);
        }
    }
    assert(!l2.has_binding(c.imports[n].key));
    assert(resolve_import(l2, c.imports[n]) is Unresolved);
    assert(!import_ok(l2, c.imports[n]));
    assert(!all_imports_ok(c, l2));
    // Every other import resolves in l2 exactly as it did in l.
    assert forall|m: int| 0 <= m < c.imports.len() && m != n implies import_ok(
        l2,
        #[trigger] c.imports[m],
    ) by {
        lemma_other_imports_unaffected(c, l, l2, n, bi, m);
    }
    // So the first failure is the n-th import, reported as unresolved.
    assert forall|e: InstantiationErrorModel| first_failure_reported(c, l2, e) implies e
        == InstantiationErrorModel::UnresolvedImport(c.imports[n].key) by {
        let i = choose|i: int|
            #![auto]
            0 <= i < c.imports.len() && (forall|j: int|
                0 <= j < i ==> import_ok(l2, #[trigger] c.imports[j])) && failure_names_import(
                l2,
                c.imports[i],
                e,
            );
        if i != n {
            assert(import_ok(l2, c.imports[i]));
            assert(!failure_names_import(l2, c.imports[i], e));
        }
    }
}

/// Removing one binding leaves every import with a different key resolving
/// as before.
proof fn lemma_other_imports_unaffected(
    c: ContractModel,
    l: LinkerModel,
    l2: LinkerModel,
    n: int,
    bi: int,
    m: int,
)
    requires
        c.wf(),
        l.wf(),
        all_imports_ok(c, l),
        0 <= n < c.imports.len(),
        0 <= m < c.imports.len(),
        m != n,
        l2.config == l.config,
        l2.bundles == l.bundles,
        0 <= bi < l.bindings.len(),
        key_eq(l.bindings[bi].key, c.imports[n].key),
        l2.bindings == l.bindings.remove(bi),
        l2.wf(),
    ensures
        import_ok(l2, c.imports[m]),
{
    assert(import_ok(l, c.imports[m]));
    let imp = c.imports[m];
    if l.has_bundle(imp.key.interface) {
        assert(l2.has_bundle(imp.key.interface));
    } else {
        assert(l.has_binding(imp.key));
        let w = choose|w: int| 0 <= w < l.bindings.len() && key_eq(l.bindings[w].key, imp.key);
        // The import keys of a well-formed contract are pairwise distinct,
        // so the surviving binding for m is not the removed one.
        if w == bi {
            if m < n {
                assert(!key_eq(c.imports[m].key, c.imports[n].key));
            } else {
                assert(!key_eq(c.imports[n].key, c.imports[m].key));
            }
            assert(key_eq(l.bindings[bi].key, c.imports[n].key));
            assert(key_eq(l.bindings[bi].key, imp.key));
            assert(false);
        }
        let w2 = if w < bi { w } else { w - 1 };
        assert(l2.bindings[w2] == l.bindings[w]);
        lemma_binding_for_unique(l2, imp.key, w2);
        lemma_binding_for_unique(l, imp.key, w);
        assert(l2.binding_for(imp.key) == l.binding_for(imp.key));
    }
}

/// Law: type safety at the boundary. Binding a capability under an
/// import's key with a signature that does not structurally match the
/// declared one makes instantiation fail with `TypeMismatch` naming that
/// import — never a silent mis-call.
pub proof fn lemma_type_mismatch_blocks_instantiation(c: ContractModel, l: LinkerModel, n: int)
    requires
        0 <= n < c.imports.len(),
        !l.has_bundle(c.imports[n].key.interface),
        l.has_binding(c.imports[n].key),
        !signature_eq(l.binding_for(c.imports[n].key).signature, c.imports[n].signature),
        forall|j: int| 0 <= j < c.imports.len() && j != n ==> import_ok(l, #[trigger] c.imports[j]),
    ensures
        !all_imports_ok(c, l),
        forall|e: InstantiationErrorModel|
            first_failure_reported(c, l, e) ==> e == (InstantiationErrorModel::TypeMismatch {
                key: c.imports[n].key,
                expected: c.imports[n].signature,
                actual: l.binding_for(c.imports[n].key).signature,
            }),
{
    assert(resolve_import(l, c.imports[n]) is Mismatch);
    assert(!import_ok(l, c.imports[n]));
    assert(!all_imports_ok(c, l));
    assert forall|e: InstantiationErrorModel| first_failure_reported(c, l, e) implies e == (
    InstantiationErrorModel::TypeMismatch {
        key: c.imports[n].key,
        expected: c.imports[n].signature,
        actual: l.binding_for(c.imports[n].key).signature,
    }) by {
        let i = choose|i: int|
            #![auto]
            0 <= i < c.imports.len() && (forall|j: int|
                0 <= j < i ==> import_ok(l, #[trigger] c.imports[j])) && failure_names_import(
                l,
                c.imports[i],
                e,
            );
        if i != n {
            assert(import_ok(l, c.imports[i]));
            assert(!failure_names_import(l, c.imports[i], e));
        }
    }
}

/// Law: no silent mis-call. Wherever instantiation can succeed, every
/// import that resolved to an explicit host capability carries exactly the
/// declared signature.
pub proof fn lemma_no_silent_miscall(c: ContractModel, l: LinkerModel, i: int)
    requires
        all_imports_ok(c, l),
        0 <= i < c.imports.len(),
        resolve_import(l, c.imports[i]) matches ImportResolution::Host(cap),
    ensures
        resolve_import(l, c.imports[i]) matches ImportResolution::Host(cap) ==> signature_eq(
            cap.signature,
            c.imports[i].signature,
        ),
{
}

} // verus!
