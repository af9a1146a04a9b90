//! A component host embedding layer: loading a sandboxed component binary,
//! declaring the typed contract of imports it needs and exports it provides,
//! binding host capabilities to that contract, and instantiating and
//! invoking the component under a blocking or a suspend-capable model.

pub mod component;
pub mod encode;
pub mod engine;
pub mod instance;
pub mod invoker;
pub mod linker;
pub mod errors;
pub mod store;
pub mod types;
