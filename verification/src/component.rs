//! The compiled component and its loader. The loader validates that a
//! binary is a component-format container (not a raw module) and records
//! the declared surface the external toolchain decoded from it; decoding
//! itself is that collaborator's work, not re-done here.

use vstd::prelude::*;
use crate::engine::{Engine, EngineConfig};
use crate::errors::LoadError;
use crate::types::{
    key_eq, value_has_type, ContractModel, ImportDecl, ImportModel, InterfaceContract, Value,
    ValueModel, ValueType,
};

verus! {

/// One observable action of an export's sandboxed body: a call into the
/// import with the given index in the contract's import list.
#[derive(Clone, Copy, PartialEq, Eq, Structural, Debug)]
pub enum GuestStep {
    CallImport(usize),
}

/// What an export's body hands back: a literal value of its own, or the
/// value some earlier import call returned (by step index).
#[derive(Clone, Debug)]
pub enum GuestValue {
    Literal(Value),
    ImportResult(usize),
}

/// Mathematical model of a [`GuestValue`].
pub ghost enum GuestValueModel {
    Literal(ValueModel),
    ImportResult(usize),
}

impl View for GuestValue {
    type V = GuestValueModel;

    open spec fn view(&self) -> GuestValueModel {
        match self {
            GuestValue::Literal(v) => GuestValueModel::Literal(v@),
            GuestValue::ImportResult(i) => GuestValueModel::ImportResult(*i),
        }
    }
}

/// How an export's body ends: a normal return, or a trap with a reason.
#[derive(Clone, Debug)]
pub enum GuestFinish {
    Return(GuestValue),
    Trap(String),
}

/// Mathematical model of a [`GuestFinish`].
pub ghost enum GuestFinishModel {
    Return(GuestValueModel),
    Trap(Seq<char>),
}

impl View for GuestFinish {
    type V = GuestFinishModel;

    open spec fn view(&self) -> GuestFinishModel {
        match self {
            GuestFinish::Return(v) => GuestFinishModel::Return(v@),
            GuestFinish::Trap(r) => GuestFinishModel::Trap(r@),
        }
    }
}

/// The abstract behaviour of one export: the import calls it makes, in
/// order, and how it ends.
#[derive(Clone, Debug)]
pub struct GuestBody {
    pub steps: Vec<GuestStep>,
    pub finish: GuestFinish,
}

/// Mathematical model of a [`GuestBody`].
pub ghost struct GuestBodyModel {
    pub steps: Seq<GuestStep>,
    pub finish: GuestFinishModel,
}

impl View for GuestBody {
    type V = GuestBodyModel;

    open spec fn view(&self) -> GuestBodyModel {
        GuestBodyModel { steps: self.steps@, finish: self.finish@ }
    }
}

/// A body is well formed against a contract with `n_imports` imports when
/// every step calls a declared import and a returned import result names
/// one of the body's own steps.
pub open spec fn body_wf(b: GuestBodyModel, n_imports: int) -> bool {
    &&& forall|j: int|
        0 <= j < b.steps.len() ==> (#[trigger] b.steps[j] matches GuestStep::CallImport(k)
            ==> k < n_imports)
    &&& (b.finish matches GuestFinishModel::Return(v) ==> (v
        matches GuestValueModel::ImportResult(j) ==> j < b.steps.len()))
}

/// A body's returned value inhabits the export's declared result type:
/// a literal must be of that type, and a forwarded import result must
/// come from an import whose declared result type is that type.
pub open spec fn body_typed(
    b: GuestBodyModel,
    imports: Seq<ImportModel>,
    result: ValueType,
) -> bool {
    match b.finish {
        GuestFinishModel::Trap(_) => true,
        GuestFinishModel::Return(v) => match v {
            GuestValueModel::Literal(val) => value_has_type(val, result),
            GuestValueModel::ImportResult(j) => j < b.steps.len() && match b.steps[j as int] {
                GuestStep::CallImport(k) => k < imports.len() && imports[k as int].signature.result
                    == result,
            },
        },
    }
}

/// The surface the external toolchain decoded from a component binary:
/// the world's interface contract, and one body per export.
#[derive(Clone, Debug)]
pub struct ComponentImage {
    pub contract: InterfaceContract,
    pub bodies: Vec<GuestBody>,
}

/// Mathematical model of a [`ComponentImage`].
pub ghost struct ImageModel {
    pub contract: ContractModel,
    pub bodies: Seq<GuestBodyModel>,
}

impl View for ComponentImage {
    type V = ImageModel;

    open spec fn view(&self) -> ImageModel {
        ImageModel {
            contract: self.contract@,
            bodies: self.bodies@.map_values(|b: GuestBody| b@),
        }
    }
}

impl ImageModel {
    /// Contract well formed, one body per export, every body well
    /// formed, and every body's returned value of its export's declared
    /// result type.
    pub open spec fn wf(self) -> bool {
        &&& self.contract.wf()
        &&& self.bodies.len() == self.contract.exports.len()
        &&& forall|i: int|
            0 <= i < self.bodies.len() ==> body_wf(
                #[trigger] self.bodies[i],
                self.contract.imports.len() as int,
            )
        &&& forall|i: int|
            0 <= i < self.bodies.len() ==> body_typed(
                #[trigger] self.bodies[i],
                self.contract.imports,
                self.contract.exports[i].signature.result,
            )
    }
}

/// A component-format container starts with the sandbox magic and carries
/// layer 1 in bytes 6 and 7 of its header.
pub open spec fn is_component_bytes(b: Seq<u8>) -> bool {
    &&& b.len() >= 8
    &&& b[0] == 0x00u8
    &&& b[1] == 0x61u8
    &&& b[2] == 0x73u8
    &&& b[3] == 0x6du8
    &&& b[6] == 0x01u8
    &&& b[7] == 0x00u8
}

/// A raw (never wrapped) module starts with the same magic but carries
/// version 1, layer 0 in bytes 4 through 7.
pub open spec fn is_raw_module_bytes(b: Seq<u8>) -> bool {
    &&& b.len() >= 8
    &&& b[0] == 0x00u8
    &&& b[1] == 0x61u8
    &&& b[2] == 0x73u8
    &&& b[3] == 0x6du8
    &&& b[4] == 0x01u8
    &&& b[5] == 0x00u8
    &&& b[6] == 0x00u8
    &&& b[7] == 0x00u8
}

/// No byte string is both a component container and a raw module: the
/// layer bytes tell them apart.
pub proof fn lemma_component_is_not_raw_module(b: Seq<u8>)
    ensures
        !(is_component_bytes(b) && is_raw_module_bytes(b)),
{
}

/// Runtime check of the component-container header.
pub fn component_format_check(bytes: &Vec<u8>) -> (r: bool)
    ensures
        r == is_component_bytes(bytes@),
{
    bytes.len() >= 8 && bytes[0] == 0x00u8 && bytes[1] == 0x61u8 && bytes[2] == 0x73u8
        && bytes[3] == 0x6du8 && bytes[6] == 0x01u8 && bytes[7] == 0x00u8
}

/// Runtime well-formedness check of a decoded image.
pub fn image_wf_check(image: &ComponentImage) -> (r: bool)
    ensures
        r == image@.wf(),
{
    if !contract_wf_check(&image.contract) {
        return false;
    }
    if image.bodies.len() != image.contract.exports.len() {
        return false;
    }
    let n_imports = image.contract.imports.len();
    let mut i: usize = 0;
    while i < image.bodies.len()
        invariant
            i <= image.bodies.len(),
            n_imports == image.contract.imports@.len(),
            image.bodies@.len() == image.contract.exports@.len(),
            forall|k: int|
                0 <= k < i ==> body_wf(
                    #[trigger] image@.bodies[k],
                    image@.contract.imports.len() as int,
                ),
            forall|k: int|
                0 <= k < i ==> body_typed(
                    #[trigger] image@.bodies[k],
                    image@.contract.imports,
                    image@.contract.exports[k].signature.result,
                ),
        decreases image.bodies.len() - i,
    {
        let ok = body_wf_check(&image.bodies[i], n_imports);
        let typed = body_typed_check(
            &image.bodies[i],
            &image.contract,
            image.contract.exports[i].signature.result,
        );
        proof {
            let ii = i as int;
            assert(image@.bodies[ii] == image.bodies@[ii]@);
            assert(image@.contract.imports.len() == n_imports);
            assert(image@.contract.exports[ii] == image.contract.exports@[ii]@);
        }
        if !ok {
            return false;
        }
        if !typed {
            return false;
        }
        i += 1;
    }
    true
}

/// Runtime check that one body's returned value is of the declared
/// result type.
pub fn body_typed_check(b: &GuestBody, contract: &InterfaceContract, result: ValueType) -> (r:
    bool)
    ensures
        r == body_typed(b@, contract@.imports, result),
{
    match &b.finish {
        GuestFinish::Trap(_) => true,
        GuestFinish::Return(GuestValue::Literal(v)) => crate::types::value_matches_type(v, result),
        GuestFinish::Return(GuestValue::ImportResult(j)) => {
            if *j >= b.steps.len() {
                return false;
            }
            match b.steps[*j] {
                GuestStep::CallImport(k) => {
                    proof {
                        assert(contract@.imports.len() == contract.imports@.len());
                    }
                    if k >= contract.imports.len() {
                        return false;
                    }
                    proof {
                        let kk = k as int;
                        assert(contract@.imports[kk] == contract.imports@[kk]@);
                    }
                    contract.imports[k].signature.result == result
                },
            }
        },
    }
}

/// Runtime well-formedness check of one body.
pub fn body_wf_check(b: &GuestBody, n_imports: usize) -> (r: bool)
    ensures
        r == body_wf(b@, n_imports as int),
{
    let mut j: usize = 0;
    while j < b.steps.len()
        invariant
            j <= b.steps.len(),
            forall|k: int|
                0 <= k < j ==> (#[trigger] b@.steps[k] matches GuestStep::CallImport(m) ==> m
                    < n_imports),
        decreases b.steps.len() - j,
    {
        match b.steps[j] {
            GuestStep::CallImport(k) => {
                if k >= n_imports {
                    proof {
                        let jj = j as int;
                        assert(b@.steps[jj] == GuestStep::CallImport(k));
                        assert(!(b@.steps[jj] matches GuestStep::CallImport(m) ==> m
                            < n_imports as int));
                    }
                    return false;
                }
            },
        }
        j += 1;
    }
    match &b.finish {
        GuestFinish::Return(GuestValue::ImportResult(k)) => *k < b.steps.len(),
        _ => true,
    }
}

/// Runtime well-formedness check of a contract: import keys unique,
/// export names unique.
pub fn contract_wf_check(c: &InterfaceContract) -> (r: bool)
    ensures
        r == c@.wf(),
{
    let mut i: usize = 0;
    while i < c.imports.len()
        invariant
            i <= c.imports.len(),
            forall|a: int, b: int|
                0 <= a < b < c@.imports.len() && a < i ==> !key_eq(
                    c@.imports[a].key,
                    c@.imports[b].key,
                ),
        decreases c.imports.len() - i,
    {
        let mut j: usize = i + 1;
        while j < c.imports.len()
            invariant
                i < j <= c.imports.len(),
                forall|b: int| i < b < j ==> !key_eq(c@.imports[i as int].key, c@.imports[b].key),
            decreases c.imports.len() - j,
        {
            let same = crate::types::key_matches(&c.imports[i].key, &c.imports[j].key);
            proof {
                let a = i as int;
                let b = j as int;
                assert(c@.imports[a] == c.imports@[a]@);
                assert(c@.imports[b] == c.imports@[b]@);
                assert(c@.imports.len() == c.imports@.len());
                if same {
                    assert(0 <= a < b < c@.imports.len() && key_eq(
                        c@.imports[a].key,
                        c@.imports[b].key,
                    ));
                }
            }
            if same {
                return false;
            }
            j += 1;
        }
        i += 1;
    }
    let mut i: usize = 0;
    while i < c.exports.len()
        invariant
            i <= c.exports.len(),
            forall|a: int, b: int|
                0 <= a < b < c@.exports.len() && a < i ==> c@.exports[a].name != c@.exports[b].name,
        decreases c.exports.len() - i,
    {
        let mut j: usize = i + 1;
        while j < c.exports.len()
            invariant
                i < j <= c.exports.len(),
                forall|b: int| i < b < j ==> c@.exports[i as int].name != c@.exports[b].name,
            decreases c.exports.len() - j,
        {
            let same = c.exports[i].name == c.exports[j].name;
            proof {
                let a = i as int;
                let b = j as int;
                assert(c@.exports[a] == c.exports@[a]@);
                assert(c@.exports[b] == c.exports@[b]@);
            }
            if same {
                return false;
            }
            j += 1;
        }
        i += 1;
    }
    true
}

/// An immutable, loaded and validated component artifact, bound to the
/// engine configuration it was loaded under; it may be instantiated many
/// times.
#[derive(Clone, Debug)]
pub struct CompiledComponent {
    pub config: EngineConfig,
    pub image: ComponentImage,
}

/// Mathematical model of a [`CompiledComponent`].
pub ghost struct CompiledComponentModel {
    pub config: EngineConfig,
    pub image: ImageModel,
}

impl View for CompiledComponent {
    type V = CompiledComponentModel;

    open spec fn view(&self) -> CompiledComponentModel {
        CompiledComponentModel { config: self.config, image: self.image@ }
    }
}

impl CompiledComponentModel {
    pub open spec fn wf(self) -> bool {
        self.image.wf()
    }
}

/// Loads a binary as a compiled component. The engine must allow the
/// component model; the bytes must be a component-format container (a raw
/// module is refused: wrapping it is external preprocessing, not done
/// here); and the decoded surface must be well formed. Nothing else ever
/// produces a [`CompiledComponent`].
pub fn load(engine: &Engine, bytes: &Vec<u8>, image: ComponentImage) -> (r: Result<
    CompiledComponent,
    LoadError,
>)
    ensures
        r is Ok <==> engine.config.component_model && is_component_bytes(bytes@) && image@.wf(),
        r matches Ok(c) ==> c@ == (CompiledComponentModel { config: engine.config, image: image@ })
            && c@.wf(),
        !engine.config.component_model ==> (r matches Err(e) && e is IncompatibleEngineConfig),
        engine.config.component_model && !(is_component_bytes(bytes@) && image@.wf()) ==> (r
            matches Err(e) && e is InvalidBinary),
{
    if !engine.config.component_model {
        return Err(LoadError::IncompatibleEngineConfig);
    }
    if !component_format_check(bytes) {
        return Err(LoadError::InvalidBinary);
    }
    if !image_wf_check(&image) {
        return Err(LoadError::InvalidBinary);
    }
    Ok(CompiledComponent { config: engine.config, image })
}

impl GuestValue {
    /// A copy whose model is the same.
    pub fn duplicate(&self) -> (r: GuestValue)
        ensures
            r@ == self@,
    {
        match self {
            GuestValue::Literal(v) => GuestValue::Literal(v.duplicate()),
            GuestValue::ImportResult(i) => GuestValue::ImportResult(*i),
        }
    }
}

impl GuestFinish {
    /// A copy whose model is the same.
    pub fn duplicate(&self) -> (r: GuestFinish)
        ensures
            r@ == self@,
    {
        match self {
            GuestFinish::Return(v) => GuestFinish::Return(v.duplicate()),
            GuestFinish::Trap(s) => GuestFinish::Trap(s.clone()),
        }
    }
}

impl GuestBody {
    /// A copy whose model is the same.
    pub fn duplicate(&self) -> (r: GuestBody)
        ensures
            r@ == self@,
    {
        let steps = self.steps.clone();
        proof {
            assert forall|i: int| 0 <= i < steps@.len() implies steps@[i]
                == self.steps@[i] by {
                assert(cloned::<GuestStep>(self.steps[i], steps[i]));
            }
            assert(steps@ =~= self.steps@);
        }
        GuestBody { steps, finish: self.finish.duplicate() }
    }
}

} // verus!
