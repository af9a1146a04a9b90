//! The invoker: typed calls into an instance's exports. The export must
//! exist and the arguments must fit its declared signature before any
//! sandboxed code runs; a trap poisons the instance terminally. The
//! blocking variant runs a call to completion on the calling thread; the
//! suspend-capable variant is driven by the host, one resumption at a
//! time, and never lets two calls into one instance overlap.

use vstd::prelude::*;
use crate::component::{
    body_wf, GuestBodyModel, GuestFinish, GuestFinishModel, GuestStep, GuestValue, GuestValueModel,
};
use crate::errors::{CallError, CallErrorModel};
use crate::instance::{step_suspensions, suspensions_from, ActiveCall, Instance, InstanceModel,
    ResolvedImport, ResolvedImportModel, Status, status_transition_ok};
use crate::linker::{behavior_result, CapabilityBehavior};
use crate::store::{SessionModel, Store};
use crate::types::{
    value_has_type, ExportModel, FuncSignature, SignatureModel, Value, ValueModel,
};

verus! {

/// Whether some export carries this name.
pub open spec fn has_export(exports: Seq<ExportModel>, name: Seq<char>) -> bool {
    exists|i: int| 0 <= i < exports.len() && exports[i].name == name
}

/// The index of the export carrying this name (meaningful when
/// `has_export` holds of a well-formed instance).
pub open spec fn export_index_of(exports: Seq<ExportModel>, name: Seq<char>) -> int {
    choose|i: int| 0 <= i < exports.len() && exports[i].name == name
}

/// The models of a list of runtime values.
pub open spec fn args_models(args: Seq<Value>) -> Seq<ValueModel> {
    args.map_values(|v: Value| v@)
}

/// Whether an argument list fits a signature: same arity, every value of
/// its declared type.
pub open spec fn args_match(sig: SignatureModel, args: Seq<ValueModel>) -> bool {
    &&& args.len() == sig.params.len()
    &&& forall|i: int| 0 <= i < args.len() ==> value_has_type(#[trigger] args[i], sig.params[i])
}

/// The value one body step's import call returns: the bound capability's
/// result, or unit for a bundle-covered import.
pub open spec fn step_value(inst: InstanceModel, session: SessionModel, step: GuestStep) -> ValueModel {
    match step {
        GuestStep::CallImport(k) => match inst.imports[k as int] {
            ResolvedImportModel::Host(cap) => behavior_result(cap.behavior, session),
            ResolvedImportModel::Ambient => ValueModel::Unit,
        },
    }
}

/// The value a normally returning call hands back.
pub open spec fn call_return_value(
    inst: InstanceModel,
    session: SessionModel,
    body: GuestBodyModel,
    gv: GuestValueModel,
) -> ValueModel {
    match gv {
        GuestValueModel::Literal(v) => v,
        GuestValueModel::ImportResult(j) => step_value(inst, session, body.steps[j as int]),
    }
}

/// How a validated call on one export ends.
pub ghost enum CallCompletion {
    Returned(ValueModel),
    Trapped(Seq<char>),
}

/// The completion a validated call reaches, as a function of the
/// instance, the session state its capabilities read, and the export's
/// body.
pub open spec fn call_completion(
    inst: InstanceModel,
    session: SessionModel,
    body: GuestBodyModel,
) -> CallCompletion {
    match body.finish {
        GuestFinishModel::Trap(r) => CallCompletion::Trapped(r),
        GuestFinishModel::Return(gv) => CallCompletion::Returned(
            call_return_value(inst, session, body, gv),
        ),
    }
}

/// Everything of an instance but its status: calls never rebind an
/// instance, they only move its status.
pub open spec fn same_surface(a: InstanceModel, b: InstanceModel) -> bool {
    &&& a.config == b.config
    &&& a.exports == b.exports
    &&& a.bodies == b.bodies
    &&& a.imports == b.imports
}

/// Runtime check that an argument list fits a signature.
pub fn args_match_check(sig: &FuncSignature, args: &Vec<Value>) -> (r: bool)
    ensures
        r == args_match(sig@, args_models(args@)),
{
    if args.len() != sig.params.len() {
        return false;
    }
    let mut i: usize = 0;
    while i < args.len()
        invariant
            i <= args.len(),
            args@.len() == sig.params@.len(),
            forall|k: int|
                0 <= k < i ==> value_has_type(#[trigger] args_models(args@)[k], sig.params@[k]),
        decreases args.len() - i,
    {
        let ok = crate::types::value_matches_type(&args[i], sig.params[i]);
        proof {
            let ii = i as int;
            assert(args_models(args@)[ii] == args@[ii]@);
        }
        if !ok {
            return false;
        }
        i += 1;
    }
    true
}

impl Instance {
    /// Looks an export up by name.
    pub fn find_export(&self, name: &String) -> (r: Option<usize>)
        requires
            self@.wf(),
        ensures
            r matches Some(i) ==> has_export(self@.exports, name@) && 0 <= i
                < self@.exports.len() && i == export_index_of(self@.exports, name@),
            r is None ==> !has_export(self@.exports, name@),
    {
        let mut i: usize = 0;
        while i < self.exports.len()
            invariant
                self@.wf(),
                i <= self.exports.len(),
                forall|k: int| 0 <= k < i ==> self@.exports[k].name != name@,
            decreases self.exports.len() - i,
        {
            if self.exports[i].name == *name {
                proof {
                    let j = i as int;
                    assert(self@.exports[j] == self.exports@[j]@);
                    assert(0 <= j < self@.exports.len() && self@.exports[j].name == name@);
                    let w = export_index_of(self@.exports, name@);
                    if w != j {
                        if w < j {
                            assert(self@.exports[w].name != self@.exports[j].name);
                        } else {
                            assert(self@.exports[j].name != self@.exports[w].name);
                        }
                        assert(false);
                    }
                }
                return Some(i);
            }
            i += 1;
        }
        None
    }

    /// Runs every step of one export's body in order, collecting each
    /// import call's result. The capabilities of this library read the
    /// session state and leave the store unchanged.
    fn run_steps(&self, store: &mut Store, ei: usize) -> (r: Vec<Value>)
        requires
            self@.wf(),
            ei < self@.bodies.len(),
        ensures
            final(store)@ == old(store)@,
            r@.len() == self@.bodies[ei as int].steps.len(),
            forall|j: int|
                0 <= j < r@.len() ==> r@[j]@ == step_value(
                    self@,
                    old(store)@.session,
                    self@.bodies[ei as int].steps[j],
                ),
    {
        let mut results: Vec<Value> = Vec::new();
        proof {
            assert(self@.bodies[ei as int] == self.bodies@[ei as int]@);
        }
        let n = self.bodies[ei].steps.len();
        let mut s: usize = 0;
        while s < n
            invariant
                self@.wf(),
                ei < self@.bodies.len(),
                ei < self.bodies@.len(),
                n == self@.bodies[ei as int].steps.len(),
                s <= n,
                results@.len() == s,
                store@ == old(store)@,
                forall|j: int|
                    0 <= j < s ==> results@[j]@ == step_value(
                        self@,
                        old(store)@.session,
                        self@.bodies[ei as int].steps[j],
                    ),
            decreases n - s,
        {
            proof {
                assert(self@.bodies[ei as int] == self.bodies@[ei as int]@);
                assert(body_wf(self@.bodies[ei as int], self@.imports.len() as int));
            }
            let step = self.bodies[ei].steps[s];
            match step {
                GuestStep::CallImport(k) => {
                    proof {
                        let ss = s as int;
                        assert(self@.bodies[ei as int].steps[ss] == GuestStep::CallImport(k));
                        assert(k < self@.imports.len());
                        assert(self@.imports[k as int] == self.imports@[k as int]@);
                    }
                    let v = match &self.imports[k] {
                        ResolvedImport::Host(cap) => crate::linker::run_capability(cap, store),
                        ResolvedImport::Ambient => Value::Unit,
                    };
                    results.push(v);
                },
            }
            s += 1;
        }
        results
    }
}

/// Calls one export under the blocking model: the call runs to completion
/// on the calling thread. A trap is reported, never swallowed, and
/// poisons the instance; a poisoned instance refuses every call without
/// attempting sandboxed execution.
pub fn call(instance: &mut Instance, store: &mut Store, export: &String, args: &Vec<Value>) -> (r:
    Result<Value, CallError>)
    requires
        old(instance)@.wf(),
    ensures
        final(instance)@.wf(),
        same_surface(old(instance)@, final(instance)@),
        status_transition_ok(old(instance)@.status, final(instance)@.status),
        final(store)@ == old(store)@,
        old(instance)@.config.async_execution ==> (r matches Err(e) && e@
            == CallErrorModel::IncompatibleEngineConfig) && final(instance)@ == old(instance)@,
        !old(instance)@.config.async_execution && old(instance)@.status is Poisoned ==> (r matches
            Err(e) && e@ == CallErrorModel::InstancePoisoned) && final(instance)@ == old(instance)@,
        !old(instance)@.config.async_execution && old(instance)@.status is Ready && !has_export(
            old(instance)@.exports,
            export@,
        ) ==> (r matches Err(e) && e@ == CallErrorModel::UnknownExport(export@)) && final(instance)@ == old(instance)@,
        !old(instance)@.config.async_execution && old(instance)@.status is Ready && has_export(
            old(instance)@.exports,
            export@,
        ) && !args_match(
            old(instance)@.exports[export_index_of(old(instance)@.exports, export@)].signature,
            args_models(args@),
        ) ==> (r matches Err(e) && e@ == CallErrorModel::ArityOrTypeMismatch(export@)) && final(instance)@ == old(instance)@,
        !old(instance)@.config.async_execution && old(instance)@.status is Ready && has_export(
            old(instance)@.exports,
            export@,
        ) && args_match(
            old(instance)@.exports[export_index_of(old(instance)@.exports, export@)].signature,
            args_models(args@),
        ) ==> match call_completion(
            old(instance)@,
            old(store)@.session,
            old(instance)@.bodies[export_index_of(old(instance)@.exports, export@)],
        ) {
            CallCompletion::Returned(v) => (r matches Ok(rv) && rv@ == v) && final(instance)@
                == old(instance)@,
            CallCompletion::Trapped(reason) => (r matches Err(e) && e@
                == CallErrorModel::TrappedDuringExecution(reason)) && final(instance)@.status
                == Status::Poisoned,
        },
{
    if instance.config.async_execution {
        return Err(CallError::IncompatibleEngineConfig);
    }
    match instance.status {
        Status::Poisoned => {
            return Err(CallError::InstancePoisoned);
        },
        Status::Executing(_) => {
            return Err(CallError::CallInProgress);
        },
        Status::Ready => {},
    }
    let ei = match instance.find_export(export) {
        None => {
            return Err(CallError::UnknownExport(export.clone()));
        },
        Some(i) => i,
    };
    proof {
        assert(instance@.exports[ei as int] == instance.exports@[ei as int]@);
        assert(instance@.bodies.len() == instance@.exports.len());
    }
    if !args_match_check(&instance.exports[ei].signature, args) {
        return Err(CallError::ArityOrTypeMismatch(export.clone()));
    }
    let results = instance.run_steps(store, ei);
    proof {
        assert(instance@.bodies[ei as int] == instance.bodies@[ei as int]@);
        assert(body_wf(instance@.bodies[ei as int], instance@.imports.len() as int));
    }
    let outcome: Result<Value, String> = match &instance.bodies[ei].finish {
        GuestFinish::Trap(reason) => Err(reason.clone()),
        GuestFinish::Return(GuestValue::Literal(v)) => Ok(v.duplicate()),
        GuestFinish::Return(GuestValue::ImportResult(j)) => Ok(results[*j].duplicate()),
    };
    match outcome {
        Err(reason) => {
            instance.status = Status::Poisoned;
            Err(CallError::TrappedDuringExecution(reason))
        },
        Ok(v) => Ok(v),
    }
}

/// What one resumption of a suspend-capable call reports: still
/// suspended, or complete with the returned value.
#[derive(Clone, Debug)]
pub enum AsyncProgress {
    Suspended,
    Complete(Value),
}

/// Mathematical model of an [`AsyncProgress`].
pub ghost enum ProgressModel {
    Suspended,
    Complete(ValueModel),
}

impl View for AsyncProgress {
    type V = ProgressModel;

    open spec fn view(&self) -> ProgressModel {
        match self {
            AsyncProgress::Suspended => ProgressModel::Suspended,
            AsyncProgress::Complete(v) => ProgressModel::Complete(v@),
        }
    }
}

/// Begins one suspend-capable call on an instance: the export and the
/// arguments are validated now, before any sandboxed code runs, and the
/// call is then in flight until driven to completion. A second call on
/// the same instance is refused while one is in flight: calls into one
/// instance are strictly sequential.
pub fn call_async_start(instance: &mut Instance, export: &String, args: &Vec<Value>) -> (r: Result<
    (),
    CallError,
>)
    requires
        old(instance)@.wf(),
    ensures
        final(instance)@.wf(),
        same_surface(old(instance)@, final(instance)@),
        status_transition_ok(old(instance)@.status, final(instance)@.status),
        !old(instance)@.config.async_execution ==> (r matches Err(e) && e@
            == CallErrorModel::IncompatibleEngineConfig) && final(instance)@ == old(instance)@,
        old(instance)@.config.async_execution && old(instance)@.status is Poisoned ==> (r matches
            Err(e) && e@ == CallErrorModel::InstancePoisoned) && final(instance)@ == old(instance)@,
        old(instance)@.config.async_execution && old(instance)@.status is Executing ==> (r matches
            Err(e) && e@ == CallErrorModel::CallInProgress) && final(instance)@ == old(instance)@,
        old(instance)@.config.async_execution && old(instance)@.status is Ready && !has_export(
            old(instance)@.exports,
            export@,
        ) ==> (r matches Err(e) && e@ == CallErrorModel::UnknownExport(export@))
            && final(instance)@ == old(instance)@,
        old(instance)@.config.async_execution && old(instance)@.status is Ready && has_export(
            old(instance)@.exports,
            export@,
        ) && !args_match(
            old(instance)@.exports[export_index_of(old(instance)@.exports, export@)].signature,
            args_models(args@),
        ) ==> (r matches Err(e) && e@ == CallErrorModel::ArityOrTypeMismatch(export@))
            && final(instance)@ == old(instance)@,
        old(instance)@.config.async_execution && old(instance)@.status is Ready && has_export(
            old(instance)@.exports,
            export@,
        ) && args_match(
            old(instance)@.exports[export_index_of(old(instance)@.exports, export@)].signature,
            args_models(args@),
        ) ==> r is Ok && (final(instance)@.status matches Status::Executing(ac)
            && ac.export_index == export_index_of(old(instance)@.exports, export@)
            && ac.next_step == 0 && ac.suspensions_done == 0),
{
    if !instance.config.async_execution {
        return Err(CallError::IncompatibleEngineConfig);
    }
    match instance.status {
        Status::Poisoned => {
            return Err(CallError::InstancePoisoned);
        },
        Status::Executing(_) => {
            return Err(CallError::CallInProgress);
        },
        Status::Ready => {},
    }
    let ei = match instance.find_export(export) {
        None => {
            return Err(CallError::UnknownExport(export.clone()));
        },
        Some(i) => i,
    };
    proof {
        assert(instance@.exports[ei as int] == instance.exports@[ei as int]@);
        assert(instance@.bodies.len() == instance@.exports.len());
    }
    if !args_match_check(&instance.exports[ei].signature, args) {
        return Err(CallError::ArityOrTypeMismatch(export.clone()));
    }
    instance.status = Status::Executing(
        ActiveCall { export_index: ei, next_step: 0, suspensions_done: 0 },
    );
    Ok(())
}

/// Drives the call in flight one step further. Each resumption either
/// reports `Suspended` — one pending capability suspension was consumed —
/// or completes the call, with its value or its trap. The number of
/// resumptions a call needs before completing is exactly the suspensions
/// its capabilities perform; calls on an instance stay strictly
/// sequential, since the one in flight keeps its place until it completes.
pub fn call_async_poll(instance: &mut Instance, store: &mut Store) -> (r: Result<
    AsyncProgress,
    CallError,
>)
    requires
        old(instance)@.wf(),
    ensures
        final(instance)@.wf(),
        same_surface(old(instance)@, final(instance)@),
        status_transition_ok(old(instance)@.status, final(instance)@.status),
        final(store)@ == old(store)@,
        old(instance)@.status is Ready ==> (r matches Err(e) && e@
            == CallErrorModel::NoPendingCall) && final(instance)@ == old(instance)@,
        old(instance)@.status is Poisoned ==> (r matches Err(e) && e@
            == CallErrorModel::InstancePoisoned) && final(instance)@ == old(instance)@,
        ({
            let pre = old(instance)@;
            let post = final(instance)@;
            pre.status is Executing ==> {
                let ac = pre.status->Executing_0;
                let rem = pre.remaining_suspensions(ac);
                &&& rem > 0 ==> (r matches Ok(p) && p@ == ProgressModel::Suspended) && post.status
                    is Executing && post.status->Executing_0.export_index == ac.export_index
                    && post.remaining_suspensions(post.status->Executing_0) == rem - 1
                &&& rem == 0 ==> match call_completion(
                    pre,
                    old(store)@.session,
                    pre.bodies[ac.export_index as int],
                ) {
                    CallCompletion::Returned(v) => (r matches Ok(p) && p@
                        == ProgressModel::Complete(v)) && post.status == Status::Ready,
                    CallCompletion::Trapped(reason) => (r matches Err(e) && e@
                        == CallErrorModel::TrappedDuringExecution(reason)) && post.status
                        == Status::Poisoned,
                }
            }
        }),
{
    let ac = match instance.status {
        Status::Ready => {
            return Err(CallError::NoPendingCall);
        },
        Status::Poisoned => {
            return Err(CallError::InstancePoisoned);
        },
        Status::Executing(ac) => ac,
    };
    let ghost pre = instance@;
    let ghost body = instance@.bodies[ac.export_index as int];
    let ghost rem0 = instance@.remaining_suspensions(ac);
    let ei = ac.export_index;
    proof {
        assert(instance@.bodies[ei as int] == instance.bodies@[ei as int]@);
        assert(body_wf(instance@.bodies[ei as int], instance@.imports.len() as int));
    }
    let n = instance.bodies[ei].steps.len();
    let mut s: usize = ac.next_step;
    let mut done: u64 = ac.suspensions_done;
    while s < n
        invariant
            instance@ == pre,
            pre == old(instance)@,
            pre.wf(),
            pre.status == Status::Executing(ac),
            body == pre.bodies[ac.export_index as int],
            ei == ac.export_index,
            ei < pre.bodies.len(),
            ei < instance.bodies@.len(),
            n == body.steps.len(),
            s <= n,
            s < n ==> done <= step_suspensions(pre.imports, body.steps[s as int]),
            s == n ==> done == 0,
            rem0 == suspensions_from(pre.imports, body, s as int) - done,
            rem0 == pre.remaining_suspensions(ac),
        decreases n - s,
    {
        proof {
            assert(body_wf(body, pre.imports.len() as int));
        }
        let step = instance.bodies[ei].steps[s];
        let sc: u64 = match step {
            GuestStep::CallImport(k) => {
                proof {
                    assert(body.steps[s as int] == GuestStep::CallImport(k));
                    assert(k < pre.imports.len());
                    assert(pre.imports[k as int] == instance.imports@[k as int]@);
                }
                match &instance.imports[k] {
                    ResolvedImport::Host(cap) => match &cap.behavior {
                        CapabilityBehavior::SuspendingSessionName(m) => *m,
                        CapabilityBehavior::SessionName => 0,
                        CapabilityBehavior::FixedText(_) => 0,
                    },
                    ResolvedImport::Ambient => 0,
                }
            },
        };
        proof {
            assert(sc == step_suspensions(pre.imports, body.steps[s as int]));
        }
        if done < sc {
            let ac2 = ActiveCall { export_index: ei, next_step: s, suspensions_done: done + 1 };
            instance.status = Status::Executing(ac2);
            proof {
                assert(instance@.imports == pre.imports);
                assert(instance@.bodies == pre.bodies);
                assert(instance@.remaining_suspensions(ac2) == suspensions_from(
                    pre.imports,
                    body,
                    s as int,
                ) - (done + 1));
            }
            return Ok(AsyncProgress::Suspended);
        }
        proof {
            assert(suspensions_from(pre.imports, body, s as int) == step_suspensions(
                pre.imports,
                body.steps[s as int],
            ) + suspensions_from(pre.imports, body, s as int + 1));
        }
        s += 1;
        done = 0;
    }
    proof {
        assert(suspensions_from(pre.imports, body, n as int) == 0);
        assert(rem0 == 0);
    }
    let results = instance.run_steps(store, ei);
    proof {
        assert(instance@.bodies[ei as int] == instance.bodies@[ei as int]@);
        assert(body_wf(instance@.bodies[ei as int], instance@.imports.len() as int));
    }
    let outcome: Result<Value, String> = match &instance.bodies[ei].finish {
        GuestFinish::Trap(reason) => Err(reason.clone()),
        GuestFinish::Return(GuestValue::Literal(v)) => Ok(v.duplicate()),
        GuestFinish::Return(GuestValue::ImportResult(j)) => Ok(results[*j].duplicate()),
    };
    match outcome {
        Err(reason) => {
            instance.status = Status::Poisoned;
            Err(CallError::TrappedDuringExecution(reason))
        },
        Ok(v) => {
            instance.status = Status::Ready;
            Ok(AsyncProgress::Complete(v))
        },
    }
}

/// Abandons the call in flight, if any: by policy this poisons the
/// instance, exactly as a trap does — the sandboxed state of a call that
/// never completed is not fit for further use.
pub fn call_async_abandon(instance: &mut Instance)
    requires
        old(instance)@.wf(),
    ensures
        final(instance)@.wf(),
        same_surface(old(instance)@, final(instance)@),
        status_transition_ok(old(instance)@.status, final(instance)@.status),
        old(instance)@.status is Executing ==> final(instance)@.status == Status::Poisoned,
        !(old(instance)@.status is Executing) ==> final(instance)@ == old(instance)@,
{
    match instance.status {
        Status::Executing(_) => {
            instance.status = Status::Poisoned;
        },
        Status::Ready => {},
        Status::Poisoned => {},
    }
}

} // verus!
