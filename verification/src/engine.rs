//! The execution engine: process-wide, explicitly owned configuration under
//! which components are loaded and every linker, store, and instance is
//! created. Several independently configured engines may coexist.

use vstd::prelude::*;
use crate::errors::ConfigError;

verus! {

/// The recognized engine options.
#[derive(Clone, Copy, PartialEq, Eq, Structural, Debug)]
pub struct EngineConfig {
    /// Enables loading component-format binaries instead of raw modules.
    pub component_model: bool,
    /// Enables suspend/resume call semantics.
    pub async_execution: bool,
}

/// A configuration set is coherent when suspend-capable execution, which
/// works only on component-format binaries, does not ask for the component
/// model while the options leave it disabled.
pub open spec fn config_coherent(c: EngineConfig) -> bool {
    c.async_execution ==> c.component_model
}

/// The execution engine a configuration was frozen into.
#[derive(Clone, Copy, Debug)]
pub struct Engine {
    pub config: EngineConfig,
}

impl Engine {
    /// Freezes a configuration into an engine, failing fast on a
    /// contradictory option set; nothing is retried.
    pub fn create(config: EngineConfig) -> (r: Result<Engine, ConfigError>)
        ensures
            r is Ok <==> config_coherent(config),
            r matches Ok(e) ==> e.config == config,
            r matches Err(e) ==> e is AsyncRequiresComponentModel,
    {
        if config.async_execution && !config.component_model {
            Err(ConfigError::AsyncRequiresComponentModel)
        } else {
            Ok(Engine { config })
        }
    }
}

} // verus!
