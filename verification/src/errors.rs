//! The error taxonomy of the embedding layer. Every fallible operation
//! returns one of these typed failures; none is retried by the core.

use vstd::prelude::*;
use crate::types::{CapabilityKey, FuncSignature, KeyModel, SignatureModel};

verus! {

/// Rejected engine configuration.
#[derive(Clone, Debug)]
pub enum ConfigError {
    /// The requested option set is contradictory: suspend-capable execution
    /// asks for the component model, which the options leave disabled.
    AsyncRequiresComponentModel,
}

/// Failure to load a binary as a compiled component.
#[derive(Clone, Debug)]
pub enum LoadError {
    /// The bytes are not a component-format container (for example a raw
    /// module that was never wrapped), or the declared surface is malformed.
    InvalidBinary,
    /// The engine was not configured for component-format binaries.
    IncompatibleEngineConfig,
}

/// Linker setup mistakes.
#[derive(Clone, Debug)]
pub enum LinkError {
    /// A capability is already registered under this key.
    DuplicateBinding(CapabilityKey),
    /// The named standard-capability bundle is not recognized.
    UnknownBundle(String),
}

/// Mathematical model of a [`LinkError`].
pub ghost enum LinkErrorModel {
    DuplicateBinding(KeyModel),
    UnknownBundle(Seq<char>),
}

impl View for LinkError {
    type V = LinkErrorModel;

    open spec fn view(&self) -> LinkErrorModel {
        match self {
            LinkError::DuplicateBinding(k) => LinkErrorModel::DuplicateBinding(k@),
            LinkError::UnknownBundle(n) => LinkErrorModel::UnknownBundle(n@),
        }
    }
}

/// Failure to bind a compiled component to a store through a linker.
#[derive(Clone, Debug)]
pub enum InstantiationError {
    /// An import declared by the component resolves to no binding.
    UnresolvedImport(CapabilityKey),
    /// An import resolves to a binding whose signature does not match the
    /// declared one.
    TypeMismatch { key: CapabilityKey, expected: FuncSignature, actual: FuncSignature },
    /// The store, component, and linker were not all created from one
    /// engine configuration compatible with this instantiation variant.
    IncompatibleEngineConfig,
}

/// Mathematical model of an [`InstantiationError`].
pub ghost enum InstantiationErrorModel {
    UnresolvedImport(KeyModel),
    TypeMismatch { key: KeyModel, expected: SignatureModel, actual: SignatureModel },
    IncompatibleEngineConfig,
}

impl View for InstantiationError {
    type V = InstantiationErrorModel;

    open spec fn view(&self) -> InstantiationErrorModel {
        match self {
            InstantiationError::UnresolvedImport(k) => InstantiationErrorModel::UnresolvedImport(
                k@,
            ),
            InstantiationError::TypeMismatch { key, expected, actual } => {
                InstantiationErrorModel::TypeMismatch {
                    key: key@,
                    expected: expected@,
                    actual: actual@,
                }
            },
            InstantiationError::IncompatibleEngineConfig => {
                InstantiationErrorModel::IncompatibleEngineConfig
            },
        }
    }
}

/// Failure of a call into an instance's export.
#[derive(Clone, Debug)]
pub enum CallError {
    /// No export of the instance carries the requested name.
    UnknownExport(String),
    /// The argument list does not fit the export's declared signature.
    ArityOrTypeMismatch(String),
    /// The sandboxed code terminated abnormally; the instance is poisoned.
    TrappedDuringExecution(String),
    /// The instance was poisoned by an earlier trap or an abandoned call;
    /// no execution was attempted.
    InstancePoisoned,
    /// The call variant does not fit the engine configuration the instance
    /// was created under.
    IncompatibleEngineConfig,
    /// Another call on this instance has started and not yet completed.
    CallInProgress,
    /// A resumption was requested while no call was in progress.
    NoPendingCall,
}

/// Mathematical model of a [`CallError`].
pub ghost enum CallErrorModel {
    UnknownExport(Seq<char>),
    ArityOrTypeMismatch(Seq<char>),
    TrappedDuringExecution(Seq<char>),
    InstancePoisoned,
    IncompatibleEngineConfig,
    CallInProgress,
    NoPendingCall,
}

impl View for CallError {
    type V = CallErrorModel;

    open spec fn view(&self) -> CallErrorModel {
        match self {
            CallError::UnknownExport(n) => CallErrorModel::UnknownExport(n@),
            CallError::ArityOrTypeMismatch(n) => CallErrorModel::ArityOrTypeMismatch(n@),
            CallError::TrappedDuringExecution(r) => CallErrorModel::TrappedDuringExecution(r@),
            CallError::InstancePoisoned => CallErrorModel::InstancePoisoned,
            CallError::IncompatibleEngineConfig => CallErrorModel::IncompatibleEngineConfig,
            CallError::CallInProgress => CallErrorModel::CallInProgress,
            CallError::NoPendingCall => CallErrorModel::NoPendingCall,
        }
    }
}

} // verus!
