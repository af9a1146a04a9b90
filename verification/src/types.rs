//! The typed surface shared by host and component: value types, function
//! signatures, import/export declarations, and the interface contract of a
//! world, together with the abstract behaviour a component's exports may have.

use vstd::prelude::*;

verus! {

/// The value types that may appear in an import or export signature.
#[derive(Clone, Copy, PartialEq, Eq, Structural, Debug)]
pub enum ValueType {
    Unit,
    Bool,
    S32,
    S64,
    Text,
}

/// A runtime value crossing the host/component boundary.
#[derive(Clone, Debug)]
pub enum Value {
    Unit,
    Bool(bool),
    S32(i32),
    S64(i64),
    Text(String),
}

/// Mathematical model of a [`Value`].
pub ghost enum ValueModel {
    Unit,
    Bool(bool),
    S32(i32),
    S64(i64),
    Text(Seq<char>),
}

impl View for Value {
    type V = ValueModel;

    open spec fn view(&self) -> ValueModel {
        match self {
            Value::Unit => ValueModel::Unit,
            Value::Bool(b) => ValueModel::Bool(*b),
            Value::S32(n) => ValueModel::S32(*n),
            Value::S64(n) => ValueModel::S64(*n),
            Value::Text(s) => ValueModel::Text(s@),
        }
    }
}

/// Whether a value inhabits a declared value type.
pub open spec fn value_has_type(v: ValueModel, t: ValueType) -> bool {
    match v {
        ValueModel::Unit => t == ValueType::Unit,
        ValueModel::Bool(_) => t == ValueType::Bool,
        ValueModel::S32(_) => t == ValueType::S32,
        ValueModel::S64(_) => t == ValueType::S64,
        ValueModel::Text(_) => t == ValueType::Text,
    }
}

/// The typed signature of one import or export function.
#[derive(Clone, Debug)]
pub struct FuncSignature {
    pub params: Vec<ValueType>,
    pub result: ValueType,
}

/// Mathematical model of a [`FuncSignature`].
pub ghost struct SignatureModel {
    pub params: Seq<ValueType>,
    pub result: ValueType,
}

impl View for FuncSignature {
    type V = SignatureModel;

    open spec fn view(&self) -> SignatureModel {
        SignatureModel { params: self.params@, result: self.result }
    }
}

/// The `(interface name, function name)` key under which a capability is
/// looked up.
#[derive(Clone, Debug)]
pub struct CapabilityKey {
    pub interface: String,
    pub function: String,
}

/// Mathematical model of a [`CapabilityKey`].
pub ghost struct KeyModel {
    pub interface: Seq<char>,
    pub function: Seq<char>,
}

impl View for CapabilityKey {
    type V = KeyModel;

    open spec fn view(&self) -> KeyModel {
        KeyModel { interface: self.interface@, function: self.function@ }
    }
}

/// One import the component declares: a keyed function the host must supply.
#[derive(Clone, Debug)]
pub struct ImportDecl {
    pub key: CapabilityKey,
    pub signature: FuncSignature,
}

/// Mathematical model of an [`ImportDecl`].
pub ghost struct ImportModel {
    pub key: KeyModel,
    pub signature: SignatureModel,
}

impl View for ImportDecl {
    type V = ImportModel;

    open spec fn view(&self) -> ImportModel {
        ImportModel { key: self.key@, signature: self.signature@ }
    }
}

/// One export the component promises: a named function the host may call.
#[derive(Clone, Debug)]
pub struct ExportDecl {
    pub name: String,
    pub signature: FuncSignature,
}

/// Mathematical model of an [`ExportDecl`].
pub ghost struct ExportModel {
    pub name: Seq<char>,
    pub signature: SignatureModel,
}

impl View for ExportDecl {
    type V = ExportModel;

    open spec fn view(&self) -> ExportModel {
        ExportModel { name: self.name@, signature: self.signature@ }
    }
}

/// The interface contract of a world: the imports the host must supply and
/// the exports the component provides.
#[derive(Clone, Debug)]
pub struct InterfaceContract {
    pub world: String,
    pub imports: Vec<ImportDecl>,
    pub exports: Vec<ExportDecl>,
}

/// Mathematical model of an [`InterfaceContract`].
pub ghost struct ContractModel {
    pub world: Seq<char>,
    pub imports: Seq<ImportModel>,
    pub exports: Seq<ExportModel>,
}

impl View for InterfaceContract {
    type V = ContractModel;

    open spec fn view(&self) -> ContractModel {
        ContractModel {
            world: self.world@,
            imports: self.imports@.map_values(|i: ImportDecl| i@),
            exports: self.exports@.map_values(|e: ExportDecl| e@),
        }
    }
}

/// Two keys are the same binding key when both name parts agree.
pub open spec fn key_eq(a: KeyModel, b: KeyModel) -> bool {
    a.interface == b.interface && a.function == b.function
}

/// Two signatures match structurally: same parameter list, same result.
pub open spec fn signature_eq(a: SignatureModel, b: SignatureModel) -> bool {
    a.params == b.params && a.result == b.result
}

impl ContractModel {
    /// Import keys are unique and export names are unique.
    pub open spec fn wf(self) -> bool {
        &&& forall|i: int, j: int|
            0 <= i < j < self.imports.len() ==> !key_eq(
                self.imports[i].key,
                self.imports[j].key,
            )
        &&& forall|i: int, j: int|
            0 <= i < j < self.exports.len() ==> self.exports[i].name != self.exports[j].name
    }
}

/// Runtime check that a value inhabits a declared value type.
pub fn value_matches_type(v: &Value, t: ValueType) -> (r: bool)
    ensures
        r == value_has_type(v@, t),
{
    match v {
        Value::Unit => t == ValueType::Unit,
        Value::Bool(_) => t == ValueType::Bool,
        Value::S32(_) => t == ValueType::S32,
        Value::S64(_) => t == ValueType::S64,
        Value::Text(_) => t == ValueType::Text,
    }
}

/// Runtime comparison of two binding keys.
pub fn key_matches(a: &CapabilityKey, b: &CapabilityKey) -> (r: bool)
    ensures
        r == key_eq(a@, b@),
{
    a.interface == b.interface && a.function == b.function
}

/// Runtime structural comparison of two signatures.
pub fn signature_matches(a: &FuncSignature, b: &FuncSignature) -> (r: bool)
    ensures
        r == signature_eq(a@, b@),
{
    if a.params.len() != b.params.len() {
        return false;
    }
    if a.result != b.result {
        return false;
    }
    let mut i: usize = 0;
    while i < a.params.len()
        invariant
            i <= a.params.len(),
            a.params.len() == b.params.len(),
            forall|k: int| 0 <= k < i ==> a.params@[k] == b.params@[k],
        decreases a.params.len() - i,
    {
        if a.params[i] != b.params[i] {
            return false;
        }
        i += 1;
    }
    proof {
        assert(a.params@ =~= b.params@);
    }
    true
}

impl Value {
    /// A copy whose model is the same.
    pub fn duplicate(&self) -> (r: Value)
        ensures
            r@ == self@,
    {
        match self {
            Value::Unit => Value::Unit,
            Value::Bool(b) => Value::Bool(*b),
            Value::S32(n) => Value::S32(*n),
            Value::S64(n) => Value::S64(*n),
            Value::Text(s) => Value::Text(s.clone()),
        }
    }
}

impl FuncSignature {
    /// A copy whose model is the same.
    pub fn duplicate(&self) -> (r: FuncSignature)
        ensures
            r@ == self@,
    {
        let params = self.params.clone();
        proof {
            assert forall|i: int| 0 <= i < params@.len() implies params@[i]
                == self.params@[i] by {
                assert(cloned::<ValueType>(self.params[i], params[i]));
            }
            assert(params@ =~= self.params@);
        }
        FuncSignature { params, result: self.result }
    }
}

impl CapabilityKey {
    /// A copy whose model is the same.
    pub fn duplicate(&self) -> (r: CapabilityKey)
        ensures
            r@ == self@,
    {
        CapabilityKey { interface: self.interface.clone(), function: self.function.clone() }
    }
}

impl ExportDecl {
    /// A copy whose model is the same.
    pub fn duplicate(&self) -> (r: ExportDecl)
        ensures
            r@ == self@,
    {
        ExportDecl { name: self.name.clone(), signature: self.signature.duplicate() }
    }
}

} // verus!
