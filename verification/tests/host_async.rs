use component_host::component::{
    load, ComponentImage, GuestBody, GuestFinish, GuestStep, GuestValue,
};
use component_host::engine::{Engine, EngineConfig};
use component_host::errors::{CallError, InstantiationError};
use component_host::instance::{instantiate, instantiate_async};
use component_host::invoker::{
    call, call_async_abandon, call_async_poll, call_async_start, AsyncProgress,
};
use component_host::linker::{Capability, CapabilityBehavior, Linker};
use component_host::store::{SessionState, Store};
use component_host::types::{
    CapabilityKey, ExportDecl, FuncSignature, ImportDecl, InterfaceContract, Value, ValueType,
};

fn async_header_bytes() -> Vec<u8> {
    vec![0x00, 0x61, 0x73, 0x6d, 0x0d, 0x00, 0x01, 0x00]
}

fn async_name_key() -> CapabilityKey {
    CapabilityKey { interface: "host".to_string(), function: "name".to_string() }
}

fn async_text_signature() -> FuncSignature {
    FuncSignature { params: vec![], result: ValueType::Text }
}

fn async_hello_image() -> ComponentImage {
    ComponentImage {
        contract: InterfaceContract {
            world: "hello-world".to_string(),
            imports: vec![
                ImportDecl { key: async_name_key(), signature: async_text_signature() },
            ],
            exports: vec![
                ExportDecl {
                    name: "greet".to_string(),
                    signature: FuncSignature { params: vec![], result: ValueType::Unit },
                },
                ExportDecl { name: "ask-name".to_string(), signature: async_text_signature() },
            ],
        },
        bodies: vec![
            GuestBody {
                steps: vec![GuestStep::CallImport(0)],
                finish: GuestFinish::Return(GuestValue::Literal(Value::Unit)),
            },
            GuestBody {
                steps: vec![GuestStep::CallImport(0)],
                finish: GuestFinish::Return(GuestValue::ImportResult(0)),
            },
        ],
    }
}

fn async_engine() -> Engine {
    Engine::create(EngineConfig { component_model: true, async_execution: true }).unwrap()
}

fn suspending_capability(times: u64) -> Capability {
    Capability {
        signature: async_text_signature(),
        behavior: CapabilityBehavior::SuspendingSessionName(times),
    }
}

#[test]
fn suspension_requires_one_resumption() {
    let engine = async_engine();
    let component = load(&engine, &async_header_bytes(), async_hello_image()).unwrap();
    let mut linker = Linker::new(&engine);
    linker.bind(async_name_key(), suspending_capability(1)).unwrap();
    let mut store = Store::new(&engine, SessionState { name: "me".to_string() });
    let mut instance = instantiate_async(&store, &component, &linker).unwrap();

    call_async_start(&mut instance, &"greet".to_string(), &vec![]).unwrap();
    match call_async_poll(&mut instance, &mut store).unwrap() {
        AsyncProgress::Suspended => {},
        _ => panic!("expected the first resumption to find the call suspended"),
    }
    match call_async_poll(&mut instance, &mut store).unwrap() {
        AsyncProgress::Complete(v) => assert!(matches!(v, Value::Unit)),
        _ => panic!("expected the second resumption to complete the call"),
    }

    call_async_start(&mut instance, &"ask-name".to_string(), &vec![]).unwrap();
    match call_async_poll(&mut instance, &mut store).unwrap() {
        AsyncProgress::Suspended => {},
        _ => panic!("expected one suspension"),
    }
    match call_async_poll(&mut instance, &mut store).unwrap() {
        AsyncProgress::Complete(Value::Text(s)) => assert_eq!(s, "me"),
        _ => panic!("expected the suspended call to return the session name"),
    }
}

#[test]
fn zero_suspension_call_completes_at_first_poll() {
    let engine = async_engine();
    let component = load(&engine, &async_header_bytes(), async_hello_image()).unwrap();
    let mut linker = Linker::new(&engine);
    linker
        .bind(
            async_name_key(),
            Capability {
                signature: async_text_signature(),
                behavior: CapabilityBehavior::SessionName,
            },
        )
        .unwrap();
    let mut store = Store::new(&engine, SessionState { name: "me".to_string() });
    let mut instance = instantiate_async(&store, &component, &linker).unwrap();
    call_async_start(&mut instance, &"ask-name".to_string(), &vec![]).unwrap();
    match call_async_poll(&mut instance, &mut store).unwrap() {
        AsyncProgress::Complete(Value::Text(s)) => assert_eq!(s, "me"),
        _ => panic!("expected completion at the first resumption"),
    }
}

#[test]
fn overlapping_calls_rejected() {
    let engine = async_engine();
    let component = load(&engine, &async_header_bytes(), async_hello_image()).unwrap();
    let mut linker = Linker::new(&engine);
    linker.bind(async_name_key(), suspending_capability(2)).unwrap();
    let mut store = Store::new(&engine, SessionState { name: "me".to_string() });
    let mut instance = instantiate_async(&store, &component, &linker).unwrap();

    call_async_start(&mut instance, &"greet".to_string(), &vec![]).unwrap();
    match call_async_start(&mut instance, &"ask-name".to_string(), &vec![]) {
        Err(CallError::CallInProgress) => {},
        _ => panic!("expected the second call to be refused while one is in flight"),
    }
    assert!(matches!(
        call_async_poll(&mut instance, &mut store).unwrap(),
        AsyncProgress::Suspended
    ));
    assert!(matches!(
        call_async_poll(&mut instance, &mut store).unwrap(),
        AsyncProgress::Suspended
    ));
    match call_async_poll(&mut instance, &mut store).unwrap() {
        AsyncProgress::Complete(_) => {},
        _ => panic!("expected two suspensions then completion"),
    }
    assert!(call_async_start(&mut instance, &"greet".to_string(), &vec![]).is_ok());
}

#[test]
fn abandoned_call_poisons_instance() {
    let engine = async_engine();
    let component = load(&engine, &async_header_bytes(), async_hello_image()).unwrap();
    let mut linker = Linker::new(&engine);
    linker.bind(async_name_key(), suspending_capability(1)).unwrap();
    let mut store = Store::new(&engine, SessionState { name: "me".to_string() });
    let mut instance = instantiate_async(&store, &component, &linker).unwrap();

    call_async_start(&mut instance, &"greet".to_string(), &vec![]).unwrap();
    call_async_abandon(&mut instance);
    match call_async_start(&mut instance, &"greet".to_string(), &vec![]) {
        Err(CallError::InstancePoisoned) => {},
        _ => panic!("expected the abandoned call to poison the instance"),
    }
    match call_async_poll(&mut instance, &mut store) {
        Err(CallError::InstancePoisoned) => {},
        _ => panic!("expected the poison to be terminal"),
    }
}

#[test]
fn abandon_without_call_changes_nothing() {
    let engine = async_engine();
    let component = load(&engine, &async_header_bytes(), async_hello_image()).unwrap();
    let mut linker = Linker::new(&engine);
    linker.bind(async_name_key(), suspending_capability(1)).unwrap();
    let mut store = Store::new(&engine, SessionState { name: "me".to_string() });
    let mut instance = instantiate_async(&store, &component, &linker).unwrap();
    call_async_abandon(&mut instance);
    assert!(call_async_start(&mut instance, &"greet".to_string(), &vec![]).is_ok());
    assert!(matches!(
        call_async_poll(&mut instance, &mut store).unwrap(),
        AsyncProgress::Suspended
    ));
}

#[test]
fn async_paths_rejected_on_sync_engine() {
    let sync =
        Engine::create(EngineConfig { component_model: true, async_execution: false }).unwrap();
    let component = load(&sync, &async_header_bytes(), async_hello_image()).unwrap();
    let mut linker = Linker::new(&sync);
    linker
        .bind(
            async_name_key(),
            Capability {
                signature: async_text_signature(),
                behavior: CapabilityBehavior::SessionName,
            },
        )
        .unwrap();
    let store = Store::new(&sync, SessionState { name: "me".to_string() });
    match instantiate_async(&store, &component, &linker) {
        Err(InstantiationError::IncompatibleEngineConfig) => {},
        _ => panic!("expected the suspend-capable variant to be rejected"),
    }
    let mut instance = instantiate(&store, &component, &linker).unwrap();
    match call_async_start(&mut instance, &"greet".to_string(), &vec![]) {
        Err(CallError::IncompatibleEngineConfig) => {},
        _ => panic!("expected the suspend-capable call to be rejected"),
    }
}

#[test]
fn sync_paths_rejected_on_async_engine() {
    let engine = async_engine();
    let component = load(&engine, &async_header_bytes(), async_hello_image()).unwrap();
    let mut linker = Linker::new(&engine);
    linker
        .bind(
            async_name_key(),
            Capability {
                signature: async_text_signature(),
                behavior: CapabilityBehavior::SessionName,
            },
        )
        .unwrap();
    let mut store = Store::new(&engine, SessionState { name: "me".to_string() });
    match instantiate(&store, &component, &linker) {
        Err(InstantiationError::IncompatibleEngineConfig) => {},
        _ => panic!("expected the blocking variant to be rejected"),
    }
    let mut instance = instantiate_async(&store, &component, &linker).unwrap();
    match call(&mut instance, &mut store, &"greet".to_string(), &vec![]) {
        Err(CallError::IncompatibleEngineConfig) => {},
        _ => panic!("expected the blocking call to be rejected"),
    }
}

#[test]
fn poll_without_pending_call_rejected() {
    let engine = async_engine();
    let component = load(&engine, &async_header_bytes(), async_hello_image()).unwrap();
    let mut linker = Linker::new(&engine);
    linker.bind(async_name_key(), suspending_capability(1)).unwrap();
    let mut store = Store::new(&engine, SessionState { name: "me".to_string() });
    let mut instance = instantiate_async(&store, &component, &linker).unwrap();
    match call_async_poll(&mut instance, &mut store) {
        Err(CallError::NoPendingCall) => {},
        _ => panic!("expected a resumption without a call to be refused"),
    }
}
