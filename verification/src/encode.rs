//! Wrapping a raw sandboxed module into the component container format.
//! The wrapping itself is an external collaborator's work — the encoder of
//! the `wit-component` crate performs it, behind one trusted wrapper — and
//! the verified loader then validates the produced container like any
//! other component binary. The encoder's outcome is a function of the
//! module bytes and the named adapter bytes alone, so both its success
//! condition and its output are named below and carried through the
//! public contract.

use vstd::prelude::*;
use crate::component::is_component_bytes;
use crate::errors::LoadError;

verus! {

/// Whether the external encoder accepts this module (and adapter, where
/// one is given) and produces a component container for it.
pub uninterp spec fn encode_ok(module: Seq<u8>, adapter: Option<(Seq<char>, Seq<u8>)>) -> bool;

/// The container the external encoder produces for this module (and
/// adapter), meaningful where `encode_ok` holds.
pub uninterp spec fn encoded_of(module: Seq<u8>, adapter: Option<(Seq<char>, Seq<u8>)>) -> Seq<
    u8,
>;

/// The plain values an optional named adapter argument carries.
pub open spec fn adapter_model(adapter: Option<(&str, &Vec<u8>)>) -> Option<(Seq<char>, Seq<u8>)> {
    match adapter {
        Some((name, bytes)) => Some((name@, bytes@)),
        None => None,
    }
}

/// Relies on `wit_component::ComponentEncoder` (its `module`, `adapter`
/// and `encode` methods): whether encoding succeeds, and the bytes it
/// yields, depend on the module and adapter bytes alone, so both are
/// named; a successful encoding is a component container, whose
/// eight-byte header — the sandbox magic, then version and layer one —
/// the underlying component builder writes before every section.
#[verifier::external_body]
fn encode_component(module: &Vec<u8>, adapter: Option<(&str, &Vec<u8>)>) -> (r: Result<
    Vec<u8>,
    String,
>)
    ensures
        r is Ok <==> encode_ok(module@, adapter_model(adapter)),
        r matches Ok(b) ==> b@ == encoded_of(module@, adapter_model(adapter))
            && is_component_bytes(b@),
{
    let mut enc = wit_component::ComponentEncoder::default();
    if let Err(e) = enc.module(module.as_slice()) {
        return Err(format!("{e}"));
    }
    if let Some((name, bytes)) = adapter {
        if let Err(e) = enc.adapter(name, bytes.as_slice()) {
            return Err(format!("{e}"));
        }
    }
    match enc.encode() {
        Ok(bytes) => Ok(bytes),
        Err(e) => Err(format!("{e}")),
    }
}

/// Wraps a raw module — optionally together with one named adapter
/// module — into a component container that the loader will accept. The
/// result succeeds exactly where the external encoder accepts the input,
/// and is then the container it encodes the input into; a refused input
/// is reported as an invalid binary.
pub fn convert_to_component(module: &Vec<u8>, adapter: Option<(&str, &Vec<u8>)>) -> (r: Result<
    Vec<u8>,
    LoadError,
>)
    ensures
        r is Ok <==> encode_ok(module@, adapter_model(adapter)),
        r matches Ok(b) ==> b@ == encoded_of(module@, adapter_model(adapter))
            && is_component_bytes(b@),
        r matches Err(e) ==> e is InvalidBinary,
{
    match encode_component(module, adapter) {
        Ok(bytes) => Ok(bytes),
        Err(_) => Err(LoadError::InvalidBinary),
    }
}

} // verus!
