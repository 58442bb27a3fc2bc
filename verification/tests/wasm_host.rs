use plug::dispatch::Call;
use plug::host::{open_session, run_calls, wasm_add, wasm_fib, wasm_render, HostError, PluginSession};
use wasmtime::{Engine, Module};

fn session(wat: &str) -> PluginSession {
    let engine = Engine::default();
    let module = Module::new(&engine, wat).expect("the test module should compile");
    let wasi = wasi_common::sync::WasiCtxBuilder::new().build();
    open_session(&engine, &module, wasi).expect("the test module should instantiate")
}

const GOOD_MODULE: &str = r#"
(module
  (func (export "add") (param i32 i32) (result i32)
    local.get 0
    local.get 1
    i32.add)
  (func (export "fib") (param i32) (result i64)
    i64.const 55)
  (func (export "run")))
"#;

#[test]
fn add_goes_through_the_module() {
    let mut sess = session(GOOD_MODULE);
    assert_eq!(wasm_add(&mut sess, 20, 22).unwrap(), 42);
    assert_eq!(wasm_add(&mut sess, i32::MAX, 1).unwrap(), i32::MIN);
}

#[test]
fn fib_goes_through_the_module() {
    let mut sess = session(GOOD_MODULE);
    assert_eq!(wasm_fib(&mut sess, 10).unwrap(), 55);
}

#[test]
fn render_export_runs() {
    let mut sess = session(GOOD_MODULE);
    wasm_render(&mut sess).unwrap();
}

#[test]
fn a_plan_yields_one_line_per_value_call() {
    let mut sess = session(GOOD_MODULE);
    let calls = vec![Call::Render, Call::Add(20, 22), Call::Fib(10)];
    let lines = run_calls(&mut sess, &calls).unwrap();
    assert_eq!(lines, vec!["add(20, 22) -> 42", "fib(10) -> 55"]);
}

#[test]
fn wrong_signature_is_a_mismatch_not_a_coercion() {
    let wat = r#"
    (module
      (func (export "add") (param i32) (result i32)
        local.get 0))
    "#;
    let mut sess = session(wat);
    let err = wasm_add(&mut sess, 20, 22).unwrap_err();
    match &err {
        HostError::SignatureMismatch { name, .. } => assert_eq!(name, "add"),
        other => panic!("expected a signature mismatch, got {}", other.message()),
    }
    assert_eq!(err.message(), "export has an incompatible signature: add");
}

#[test]
fn missing_export_is_not_found() {
    let mut sess = session("(module)");
    let err = wasm_add(&mut sess, 1, 2).unwrap_err();
    match &err {
        HostError::ExportNotFound { name } => assert_eq!(name, "add"),
        other => panic!("expected a missing export, got {}", other.message()),
    }
    assert_eq!(err.message(), "export not found: add");
}

#[test]
fn a_faulting_guest_is_a_trap() {
    let wat = r#"
    (module
      (func (export "add") (param i32 i32) (result i32)
        unreachable))
    "#;
    let mut sess = session(wat);
    let err = wasm_add(&mut sess, 1, 2).unwrap_err();
    match &err {
        HostError::Trap { name, .. } => assert_eq!(name, "add"),
        other => panic!("expected a trap, got {}", other.message()),
    }
    assert_eq!(err.message(), "guest trapped in: add");
}

#[test]
fn a_failing_call_stops_the_plan() {
    let mut sess = session("(module)");
    let calls = vec![Call::Add(1, 2), Call::Fib(3)];
    let err = run_calls(&mut sess, &calls).unwrap_err();
    assert_eq!(err.message(), "export not found: add");
}
