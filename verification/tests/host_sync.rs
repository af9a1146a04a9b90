use component_host::component::{
    load, ComponentImage, GuestBody, GuestFinish, GuestStep, GuestValue,
};
use component_host::engine::{Engine, EngineConfig};
use component_host::errors::{CallError, ConfigError, InstantiationError};
use component_host::instance::instantiate;
use component_host::invoker::call;
use component_host::linker::{Capability, CapabilityBehavior, Linker};
use component_host::store::{SessionState, Store};
use component_host::types::{
    CapabilityKey, ExportDecl, FuncSignature, ImportDecl, InterfaceContract, Value, ValueType,
};

fn component_header_bytes() -> Vec<u8> {
    vec![0x00, 0x61, 0x73, 0x6d, 0x0d, 0x00, 0x01, 0x00]
}

fn name_key() -> CapabilityKey {
    CapabilityKey { interface: "host".to_string(), function: "name".to_string() }
}

fn text_signature() -> FuncSignature {
    FuncSignature { params: vec![], result: ValueType::Text }
}

fn hello_image() -> ComponentImage {
    ComponentImage {
        contract: InterfaceContract {
            world: "hello-world".to_string(),
            imports: vec![ImportDecl { key: name_key(), signature: text_signature() }],
            exports: vec![
                ExportDecl {
                    name: "greet".to_string(),
                    signature: FuncSignature { params: vec![], result: ValueType::Unit },
                },
                ExportDecl { name: "ask-name".to_string(), signature: text_signature() },
                ExportDecl {
                    name: "boom".to_string(),
                    signature: FuncSignature { params: vec![], result: ValueType::Unit },
                },
            ],
        },
        bodies: vec![
            GuestBody {
                steps: vec![GuestStep::CallImport(0)],
                finish: GuestFinish::Return(GuestValue::Literal(Value::Unit)),
            },
            GuestBody {
                steps: vec![GuestStep::CallImport(0)],
                finish: GuestFinish::Return(GuestValue::ImportResult(0)),
            },
            GuestBody { steps: vec![], finish: GuestFinish::Trap("kaboom".to_string()) },
        ],
    }
}

fn name_capability() -> Capability {
    Capability { signature: text_signature(), behavior: CapabilityBehavior::SessionName }
}

fn sync_engine() -> Engine {
    Engine::create(EngineConfig { component_model: true, async_execution: false }).unwrap()
}

#[test]
fn greet_succeeds_end_to_end() {
    let engine = sync_engine();
    let component = load(&engine, &component_header_bytes(), hello_image()).unwrap();
    let mut linker = Linker::new(&engine);
    linker.bind(name_key(), name_capability()).unwrap();
    let mut store = Store::new(&engine, SessionState { name: "me".to_string() });
    let mut instance = instantiate(&store, &component, &linker).unwrap();
    let greeted = call(&mut instance, &mut store, &"greet".to_string(), &vec![]).unwrap();
    assert!(matches!(greeted, Value::Unit));
    let asked = call(&mut instance, &mut store, &"ask-name".to_string(), &vec![]).unwrap();
    match asked {
        Value::Text(s) => assert_eq!(s, "me"),
        _ => panic!("expected a text value"),
    }
}

#[test]
fn missing_binding_fails_unresolved() {
    let engine = sync_engine();
    let component = load(&engine, &component_header_bytes(), hello_image()).unwrap();
    let linker = Linker::new(&engine);
    let store = Store::new(&engine, SessionState { name: "me".to_string() });
    match instantiate(&store, &component, &linker) {
        Err(InstantiationError::UnresolvedImport(k)) => {
            assert_eq!(k.interface, "host");
            assert_eq!(k.function, "name");
        },
        _ => panic!("expected an unresolved import"),
    }
}

#[test]
fn wrong_signature_fails_type_mismatch() {
    let engine = sync_engine();
    let component = load(&engine, &component_header_bytes(), hello_image()).unwrap();
    let mut linker = Linker::new(&engine);
    let bad = Capability {
        signature: FuncSignature { params: vec![], result: ValueType::S32 },
        behavior: CapabilityBehavior::SessionName,
    };
    linker.bind(name_key(), bad).unwrap();
    let store = Store::new(&engine, SessionState { name: "me".to_string() });
    match instantiate(&store, &component, &linker) {
        Err(InstantiationError::TypeMismatch { key, expected, actual }) => {
            assert_eq!(key.function, "name");
            assert!(matches!(expected.result, ValueType::Text));
            assert!(matches!(actual.result, ValueType::S32));
        },
        _ => panic!("expected a type mismatch"),
    }
}

#[test]
fn trap_poisons_instance() {
    let engine = sync_engine();
    let component = load(&engine, &component_header_bytes(), hello_image()).unwrap();
    let mut linker = Linker::new(&engine);
    linker.bind(name_key(), name_capability()).unwrap();
    let mut store = Store::new(&engine, SessionState { name: "me".to_string() });
    let mut instance = instantiate(&store, &component, &linker).unwrap();
    match call(&mut instance, &mut store, &"boom".to_string(), &vec![]) {
        Err(CallError::TrappedDuringExecution(reason)) => assert_eq!(reason, "kaboom"),
        _ => panic!("expected a trap"),
    }
    match call(&mut instance, &mut store, &"greet".to_string(), &vec![]) {
        Err(CallError::InstancePoisoned) => {},
        _ => panic!("expected the poisoned instance to refuse the call"),
    }
    match call(&mut instance, &mut store, &"ask-name".to_string(), &vec![]) {
        Err(CallError::InstancePoisoned) => {},
        _ => panic!("expected the poison to be terminal"),
    }
}

#[test]
fn unknown_export_rejected() {
    let engine = sync_engine();
    let component = load(&engine, &component_header_bytes(), hello_image()).unwrap();
    let mut linker = Linker::new(&engine);
    linker.bind(name_key(), name_capability()).unwrap();
    let mut store = Store::new(&engine, SessionState { name: "me".to_string() });
    let mut instance = instantiate(&store, &component, &linker).unwrap();
    match call(&mut instance, &mut store, &"missing".to_string(), &vec![]) {
        Err(CallError::UnknownExport(name)) => assert_eq!(name, "missing"),
        _ => panic!("expected an unknown export"),
    }
}

#[test]
fn arity_mismatch_rejected() {
    let engine = sync_engine();
    let component = load(&engine, &component_header_bytes(), hello_image()).unwrap();
    let mut linker = Linker::new(&engine);
    linker.bind(name_key(), name_capability()).unwrap();
    let mut store = Store::new(&engine, SessionState { name: "me".to_string() });
    let mut instance = instantiate(&store, &component, &linker).unwrap();
    match call(&mut instance, &mut store, &"greet".to_string(), &vec![Value::Bool(true)]) {
        Err(CallError::ArityOrTypeMismatch(name)) => assert_eq!(name, "greet"),
        _ => panic!("expected an arity mismatch"),
    }
}

#[test]
fn session_state_flows_through_capability() {
    let engine = sync_engine();
    let component = load(&engine, &component_header_bytes(), hello_image()).unwrap();
    let mut linker = Linker::new(&engine);
    linker.bind(name_key(), name_capability()).unwrap();
    let mut store = Store::new(&engine, SessionState { name: "alice".to_string() });
    let mut instance = instantiate(&store, &component, &linker).unwrap();
    match call(&mut instance, &mut store, &"ask-name".to_string(), &vec![]).unwrap() {
        Value::Text(s) => assert_eq!(s, "alice"),
        _ => panic!("expected a text value"),
    }
    store.set_session_state(SessionState { name: "bob".to_string() });
    match call(&mut instance, &mut store, &"ask-name".to_string(), &vec![]).unwrap() {
        Value::Text(s) => assert_eq!(s, "bob"),
        _ => panic!("expected a text value"),
    }
}

#[test]
fn contradictory_engine_config_rejected() {
    match Engine::create(EngineConfig { component_model: false, async_execution: true }) {
        Err(ConfigError::AsyncRequiresComponentModel) => {},
        _ => panic!("expected a configuration error"),
    }
    assert!(Engine::create(EngineConfig { component_model: true, async_execution: true }).is_ok());
    assert!(Engine::create(EngineConfig { component_model: false, async_execution: false }).is_ok());
}

#[test]
fn mixed_engine_configs_rejected() {
    let sync = sync_engine();
    let with_async =
        Engine::create(EngineConfig { component_model: true, async_execution: true }).unwrap();
    let component = load(&sync, &component_header_bytes(), hello_image()).unwrap();
    let mut linker = Linker::new(&sync);
    linker.bind(name_key(), name_capability()).unwrap();
    let store = Store::new(&with_async, SessionState { name: "me".to_string() });
    match instantiate(&store, &component, &linker) {
        Err(InstantiationError::IncompatibleEngineConfig) => {},
        _ => panic!("expected mixing to be rejected"),
    }
}

#[test]
fn first_missing_import_is_the_one_named() {
    let engine = sync_engine();
    let second_key =
        CapabilityKey { interface: "host".to_string(), function: "version".to_string() };
    let image = ComponentImage {
        contract: InterfaceContract {
            world: "hello-world".to_string(),
            imports: vec![
                ImportDecl { key: name_key(), signature: text_signature() },
                ImportDecl {
                    key: CapabilityKey {
                        interface: second_key.interface.clone(),
                        function: second_key.function.clone(),
                    },
                    signature: text_signature(),
                },
            ],
            exports: vec![],
        },
        bodies: vec![],
    };
    let component = load(&engine, &component_header_bytes(), image).unwrap();
    let store = Store::new(&engine, SessionState { name: "me".to_string() });

    let empty = Linker::new(&engine);
    match instantiate(&store, &component, &empty) {
        Err(InstantiationError::UnresolvedImport(k)) => assert_eq!(k.function, "name"),
        _ => panic!("expected the first missing import to be the one named"),
    }

    let mut only_first = Linker::new(&engine);
    only_first.bind(name_key(), name_capability()).unwrap();
    match instantiate(&store, &component, &only_first) {
        Err(InstantiationError::UnresolvedImport(k)) => assert_eq!(k.function, "version"),
        _ => panic!("expected the remaining missing import to be the one named"),
    }
}

#[test]
fn fixed_text_capability_ignores_session_state() {
    let engine = sync_engine();
    let component = load(&engine, &component_header_bytes(), hello_image()).unwrap();
    let mut linker = Linker::new(&engine);
    linker
        .bind(
            name_key(),
            Capability {
                signature: text_signature(),
                behavior: CapabilityBehavior::FixedText("host with wit-component".to_string()),
            },
        )
        .unwrap();
    let mut store = Store::new(&engine, SessionState { name: "me".to_string() });
    let mut instance = instantiate(&store, &component, &linker).unwrap();
    match call(&mut instance, &mut store, &"ask-name".to_string(), &vec![]).unwrap() {
        Value::Text(s) => assert_eq!(s, "host with wit-component"),
        _ => panic!("expected a text value"),
    }
}
