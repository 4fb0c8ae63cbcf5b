use host_application::Action;
use host_application::Event;
use host_application::PluginRuntime;
use host_application::WasmError;
use host_application::WasmModule;
use std::future::Future;
use std::sync::Arc;
use std::sync::Mutex;
use wasmtime::component::Instance;
use wasmtime::component::Linker;
use wasmtime::component::Val;
use wasmtime::Config;
use wasmtime::Engine;
use wasmtime_wasi::preview2::WasiView;

/// A guest whose `run` returns its argument with `!` behind it.
const EXCLAIM: &str = r#"
(component
  (core module $guest
    (memory (export "memory") 1)
    (global $next (mut i32) (i32.const 1024))
    (func $alloc (param $size i32) (param $align i32) (result i32)
      (local $at i32)
      (local.set $at
        (i32.and
          (i32.add (global.get $next) (i32.sub (local.get $align) (i32.const 1)))
          (i32.xor (i32.sub (local.get $align) (i32.const 1)) (i32.const -1))))
      (global.set $next (i32.add (local.get $at) (local.get $size)))
      (local.get $at))
    (func (export "realloc") (param i32 i32 i32 i32) (result i32)
      (call $alloc (local.get 3) (local.get 2)))
    (func (export "run") (param $ptr i32) (param $len i32) (result i32)
      (local $out i32)
      (local $ret i32)
      (local.set $out
        (call $alloc (i32.add (local.get $len) (i32.const 1)) (i32.const 1)))
      (memory.copy (local.get $out) (local.get $ptr) (local.get $len))
      (i32.store8 (i32.add (local.get $out) (local.get $len)) (i32.const 33))
      (local.set $ret (call $alloc (i32.const 8) (i32.const 4)))
      (i32.store (local.get $ret) (local.get $out))
      (i32.store offset=4 (local.get $ret) (i32.add (local.get $len) (i32.const 1)))
      (local.get $ret)))
  (core instance $instance (instantiate $guest))
  (func $run (param "arg" string) (result string)
    (canon lift (core func $instance "run") (memory (core memory $instance "memory"))
      (realloc (core func $instance "realloc"))))
  (export "run" (func $run)))
"#;

/// A guest that imports `log` from `host`, calls it once with `hello`, and
/// then returns its argument with `!` behind it.
const LOGGING: &str = r#"
(component
  (import "host" (instance $host (export "log" (func (param "txt" string)))))
  (core module $libc
    (memory (export "memory") 1)
    (global $next (mut i32) (i32.const 1024))
    (func (export "realloc") (param i32 i32 i32 i32) (result i32)
      (local $at i32)
      (local.set $at
        (i32.and
          (i32.add (global.get $next) (i32.sub (local.get 2) (i32.const 1)))
          (i32.xor (i32.sub (local.get 2) (i32.const 1)) (i32.const -1))))
      (global.set $next (i32.add (local.get $at) (local.get 3)))
      (local.get $at)))
  (core instance $libc_instance (instantiate $libc))
  (core func $log
    (canon lower (func $host "log") (memory (core memory $libc_instance "memory"))))
  (core module $guest
    (import "libc" "memory" (memory 1))
    (import "libc" "realloc" (func $realloc (param i32 i32 i32 i32) (result i32)))
    (import "host" "log" (func $log (param i32 i32)))
    (data (i32.const 16) "hello")
    (func (export "run") (param $ptr i32) (param $len i32) (result i32)
      (local $out i32)
      (local $ret i32)
      (call $log (i32.const 16) (i32.const 5))
      (local.set $out
        (call $realloc (i32.const 0) (i32.const 0) (i32.const 1)
          (i32.add (local.get $len) (i32.const 1))))
      (memory.copy (local.get $out) (local.get $ptr) (local.get $len))
      (i32.store8 (i32.add (local.get $out) (local.get $len)) (i32.const 33))
      (local.set $ret
        (call $realloc (i32.const 0) (i32.const 0) (i32.const 4) (i32.const 8)))
      (i32.store (local.get $ret) (local.get $out))
      (i32.store offset=4 (local.get $ret) (i32.add (local.get $len) (i32.const 1)))
      (local.get $ret)))
  (core instance $guest_instance
    (instantiate $guest
      (with "libc" (instance $libc_instance))
      (with "host" (instance (export "log" (func $log))))))
  (func $run (param "arg" string) (result string)
    (canon lift (core func $guest_instance "run") (memory (core memory $libc_instance "memory"))
      (realloc (core func $libc_instance "realloc"))))
  (export "run" (func $run)))
"#;

/// A guest that counts in its own memory how often `run` was called, and
/// returns the count as one digit.
const COUNTING: &str = r#"
(component
  (core module $guest
    (memory (export "memory") 1)
    (global $next (mut i32) (i32.const 1024))
    (func $alloc (param $size i32) (param $align i32) (result i32)
      (local $at i32)
      (local.set $at
        (i32.and
          (i32.add (global.get $next) (i32.sub (local.get $align) (i32.const 1)))
          (i32.xor (i32.sub (local.get $align) (i32.const 1)) (i32.const -1))))
      (global.set $next (i32.add (local.get $at) (local.get $size)))
      (local.get $at))
    (func (export "realloc") (param i32 i32 i32 i32) (result i32)
      (call $alloc (local.get 3) (local.get 2)))
    (func (export "run") (param $ptr i32) (param $len i32) (result i32)
      (local $out i32)
      (local $ret i32)
      (i32.store (i32.const 64) (i32.add (i32.load (i32.const 64)) (i32.const 1)))
      (local.set $out (call $alloc (i32.const 1) (i32.const 1)))
      (i32.store8 (local.get $out) (i32.add (i32.const 48) (i32.load (i32.const 64))))
      (local.set $ret (call $alloc (i32.const 8) (i32.const 4)))
      (i32.store (local.get $ret) (local.get $out))
      (i32.store offset=4 (local.get $ret) (i32.const 1))
      (local.get $ret)))
  (core instance $instance (instantiate $guest))
  (func $run (param "arg" string) (result string)
    (canon lift (core func $instance "run") (memory (core memory $instance "memory"))
      (realloc (core func $instance "realloc"))))
  (export "run" (func $run)))
"#;

/// A guest whose `run` traps.
const TRAPPING: &str = r#"
(component
  (core module $guest
    (memory (export "memory") 1)
    (func (export "realloc") (param i32 i32 i32 i32) (result i32)
      (i32.const 1024))
    (func (export "run") (param i32 i32) (result i32)
      (unreachable)))
  (core instance $instance (instantiate $guest))
  (func $run (param "arg" string) (result string)
    (canon lift (core func $instance "run") (memory (core memory $instance "memory"))
      (realloc (core func $instance "realloc"))))
  (export "run" (func $run)))
"#;

/// A guest that exports its function under another name than `run`.
const MISNAMED: &str = r#"
(component
  (core module $guest
    (func (export "seven") (result i32)
      (i32.const 7)))
  (core instance $instance (instantiate $guest))
  (func $seven (result u32)
    (canon lift (core func $instance "seven")))
  (export "start" (func $seven)))
"#;

/// A guest whose `run` takes no argument.
const ARGLESS: &str = r#"
(component
  (core module $guest
    (func (export "seven") (result i32)
      (i32.const 7)))
  (core instance $instance (instantiate $guest))
  (func $seven (result u32)
    (canon lift (core func $instance "seven")))
  (export "run" (func $seven)))
"#;

/// A guest whose start-up traps.
const STILLBORN: &str = r#"
(component
  (core module $guest
    (func $boom
      (unreachable))
    (start $boom))
  (core instance $instance (instantiate $guest)))
"#;

/// A guest that imports a function that the host does not offer.
const WANTING: &str = r#"
(component
  (import "absent" (func $absent))
  (core module $guest
    (func (export "seven") (result i32)
      (i32.const 7)))
  (core instance $instance (instantiate $guest))
  (func $seven (result u32)
    (canon lift (core func $instance "seven")))
  (export "run" (func $seven)))
"#;

fn text(value: &str) -> String {
    value.to_string()
}

fn wait<F: Future>(future: F) -> F::Output {
    tokio::runtime::Builder::new_current_thread()
        .build()
        .expect("a runtime for one thread")
        .block_on(future)
}

/// Registers `log` so that it keeps what it is given in `lines`.
fn capture_log(
    lines: Arc<Mutex<Vec<String>>>,
) -> impl FnOnce(&mut Linker<PluginRuntime>) -> Result<(), String> {
    move |linker: &mut Linker<PluginRuntime>| {
        let mut host = linker.instance("host").map_err(|error| error.to_string())?;
        host.func_wrap("log", move |_store, (txt,): (String,)| {
            lines.lock().expect("the lines").push(txt);
            Ok(())
        })
        .map_err(|error| error.to_string())
    }
}

fn load(name: &str, guest: &str, lines: Arc<Mutex<Vec<String>>>) -> WasmModule {
    WasmModule::new(name, Ok(guest.as_bytes().to_vec()), capture_log(lines))
        .expect("the guest loads")
}

/// An engine that reserves no more address space for a linear memory than
/// the memory needs. By default an engine reserves eight gibibytes for
/// each, which not every process may have.
fn frugal_engine() -> Engine {
    let mut config = Config::new();
    config.wasm_component_model(true);
    config.async_support(true);
    config.static_memory_maximum_size(0);
    config.dynamic_memory_reserved_for_growth(0);
    config.guard_before_linear_memory(false);
    Engine::new(&config).expect("the engine of the tests")
}

/// Loads a guest that has a linear memory, on a frugal engine.
fn load_with_memory(name: &str, guest: &str, lines: Arc<Mutex<Vec<String>>>) -> WasmModule {
    WasmModule::with_engine(
        Ok(frugal_engine()),
        name,
        Ok(guest.as_bytes().to_vec()),
        capture_log(lines),
    )
    .expect("the guest loads")
}

/// Invokes and checks that every step up to the call was taken.
fn invoke_to_the_call(module: &WasmModule, arg: &str) -> Result<String, WasmError> {
    let mut trail = Vec::new();
    let result = wait(invoke(module, arg, &mut trail));
    assert_eq!(trail, vec!["store", "instantiate", "resolve", "call"]);
    result
}

fn shown(value: &Val) -> String {
    match value {
        Val::String(text) => text.to_string(),
        other => format!("{:?}", other),
    }
}

/// Drives one invocation: performs each action and reports what happened.
/// `trail` gets the name of each action that was performed.
async fn invoke(
    module: &WasmModule,
    arg: &str,
    trail: &mut Vec<&'static str>,
) -> Result<String, WasmError> {
    let (mut invocation, mut action, mut store) = module.invoke(arg);
    trail.push("store");
    let mut instance: Option<Instance> = None;
    let mut entry = None;
    loop {
        let event = match action {
            Action::Instantiate => {
                trail.push("instantiate");
                let store = store.as_mut().expect("the store was made");
                match module.linker().instantiate_async(store, module.component()).await {
                    Ok(made) => {
                        instance = Some(made);
                        Event::Instantiated
                    }
                    Err(error) => Event::InstantiateFailed(error.to_string()),
                }
            }
            Action::ResolveExport { name } => {
                trail.push("resolve");
                let store = store.as_mut().expect("the store was made");
                let instance = instance.as_ref().expect("the instance was made");
                match instance.get_func(store, &name) {
                    Some(found) => {
                        entry = Some(found);
                        Event::ExportFound
                    }
                    None => Event::ExportMissing,
                }
            }
            Action::Call { name: _, arg, result_slots } => {
                trail.push("call");
                let store = store.as_mut().expect("the store was made");
                let entry = entry.as_ref().expect("the entry point was found");
                let params = [Val::String(arg.into())];
                let mut results = vec![Val::S32(0); result_slots];
                match entry.call_async(store, &params, &mut results).await {
                    Ok(()) => Event::Returned(results.iter().map(shown).collect()),
                    Err(error) => Event::CallFailed(error.to_string()),
                }
            }
            Action::Finish(result) => return result,
        };
        action = invocation.step(event).expect("the event answers the action");
    }
}

fn no_lines() -> Arc<Mutex<Vec<String>>> {
    Arc::new(Mutex::new(Vec::new()))
}

#[test]
fn scenario_exclaim_world() {
    let module = load_with_memory("exclaim.wat", EXCLAIM, no_lines());
    assert_eq!(invoke_to_the_call(&module, "world"), Ok(text("world!")));
}

#[test]
fn result_is_what_run_computes_for_each_argument() {
    let module = load_with_memory("exclaim.wat", EXCLAIM, no_lines());
    for arg in ["", "world!", "a, b", "päth ünïcode", "0123456789012345678901234567890123456789"] {
        assert_eq!(invoke_to_the_call(&module, arg), Ok(format!("{}!", arg)));
    }
}

#[test]
fn scenario_log_hello_once() {
    let lines = no_lines();
    let module = load_with_memory("logging.wat", LOGGING, lines.clone());
    assert!(lines.lock().expect("the lines").is_empty());
    assert_eq!(invoke_to_the_call(&module, "world"), Ok(text("world!")));
    assert_eq!(*lines.lock().expect("the lines"), vec![text("hello")]);
}

#[test]
fn scenario_trap_is_a_call_error() {
    let module = load_with_memory("trapping.wat", TRAPPING, no_lines());
    for _ in 0..2 {
        match invoke_to_the_call(&module, "world") {
            Err(WasmError::CallError(cause)) => assert!(!cause.is_empty()),
            other => panic!("not a call error: {:?}", other),
        }
    }
}

#[test]
fn call_that_does_not_fit_the_signature_is_a_call_error() {
    let module = load("argless.wat", ARGLESS, no_lines());
    let mut trail = Vec::new();
    let result = wait(invoke(&module, "world", &mut trail));
    assert_eq!(result, Err(WasmError::CallError(text("expected 0 argument(s), got 1"))));
    assert_eq!(trail, vec!["store", "instantiate", "resolve", "call"]);
}

#[test]
fn component_without_run_gives_export_not_found() {
    for (name, guest) in [("misnamed.wat", MISNAMED), ("empty.wat", "(component)")] {
        let module = load(name, guest, no_lines());
        let mut trail = Vec::new();
        let result = wait(invoke(&module, "world", &mut trail));
        assert_eq!(result, Err(WasmError::ExportNotFoundError(text("run"))));
        assert_eq!(trail, vec!["store", "instantiate", "resolve"]);
    }
}

#[test]
fn unregistered_import_fails_at_instantiation() {
    let module = load("wanting.wat", WANTING, no_lines());
    let mut trail = Vec::new();
    let result = wait(invoke(&module, "world", &mut trail));
    match result {
        Err(WasmError::InstantiateError(cause)) => {
            assert!(cause.contains("absent"), "cause: {}", cause)
        }
        other => panic!("not an instantiate error: {:?}", other),
    }
    assert_eq!(trail, vec!["store", "instantiate"]);
}

#[test]
fn unregistered_log_fails_at_instantiation() {
    let module =
        WasmModule::new("logging.wat", Ok(LOGGING.as_bytes().to_vec()), |_linker| Ok(()))
            .expect("the guest loads");
    let mut trail = Vec::new();
    let result = wait(invoke(&module, "world", &mut trail));
    match result {
        Err(WasmError::InstantiateError(cause)) => {
            assert!(cause.contains("host"), "cause: {}", cause)
        }
        other => panic!("not an instantiate error: {:?}", other),
    }
    assert_eq!(trail, vec!["store", "instantiate"]);
}

#[test]
fn trap_at_start_up_is_an_instantiate_error() {
    let module = load("stillborn.wat", STILLBORN, no_lines());
    let mut trail = Vec::new();
    let result = wait(invoke(&module, "world", &mut trail));
    assert!(matches!(result, Err(WasmError::InstantiateError(_))), "result: {:?}", result);
    assert_eq!(trail, vec!["store", "instantiate"]);
}

#[test]
fn invoking_twice_gives_the_same_result() {
    let module = load_with_memory("exclaim.wat", EXCLAIM, no_lines());
    let first = invoke_to_the_call(&module, "world");
    let second = invoke_to_the_call(&module, "world");
    assert_eq!(first, Ok(text("world!")));
    assert_eq!(first, second);
    let module = load("argless.wat", ARGLESS, no_lines());
    let first = invoke_to_the_call(&module, "world");
    let second = invoke_to_the_call(&module, "world");
    assert_eq!(first, second);
}

#[test]
fn handle_survives_a_failed_invocation() {
    let argless = load("argless.wat", ARGLESS, no_lines());
    for _ in 0..3 {
        assert!(matches!(invoke_to_the_call(&argless, "a"), Err(WasmError::CallError(_))));
    }
    let trapping = load_with_memory("trapping.wat", TRAPPING, no_lines());
    assert!(invoke_to_the_call(&trapping, "a").is_err());
    assert!(invoke_to_the_call(&trapping, "a").is_err());
    let lines = no_lines();
    let module = load_with_memory("logging.wat", LOGGING, lines.clone());
    assert_eq!(invoke_to_the_call(&module, "a"), Ok(text("a!")));
    assert_eq!(invoke_to_the_call(&module, "b"), Ok(text("b!")));
    assert_eq!(*lines.lock().expect("the lines"), vec![text("hello"), text("hello")]);
}

#[test]
fn every_invocation_counts_from_the_start() {
    let module = load_with_memory("counting.wat", COUNTING, no_lines());
    for _ in 0..3 {
        assert_eq!(invoke_to_the_call(&module, "x"), Ok(text("1")));
    }
}

#[test]
fn interleaved_invocations_do_not_see_each_other() {
    let module = load_with_memory("counting.wat", COUNTING, no_lines());
    let seen = wait(async {
        let (_, _, first) = module.invoke("a");
        let (_, _, second) = module.invoke("b");
        let mut first = first.expect("the default context builds");
        let mut second = second.expect("the default context builds");
        let one = module
            .linker()
            .instantiate_async(&mut first, module.component())
            .await
            .expect("the guest starts");
        let two = module
            .linker()
            .instantiate_async(&mut second, module.component())
            .await
            .expect("the guest starts");
        let run_one = one.get_func(&mut first, "run").expect("the entry point");
        let run_two = two.get_func(&mut second, "run").expect("the entry point");
        let mut seen = Vec::new();
        for (store, run, arg) in [(&mut first, run_one, "a"), (&mut second, run_two, "b")] {
            let mut results = vec![Val::S32(0)];
            run.call_async(store, &[Val::String(arg.into())], &mut results)
                .await
                .expect("the call returns");
            seen.push(shown(&results[0]));
        }
        seen
    });
    assert_eq!(seen, vec![text("1"), text("1")]);
}

#[test]
fn stores_of_interleaved_invocations_are_apart() {
    let module = load("argless.wat", ARGLESS, no_lines());
    let seen = wait(async {
        let mut first = module.new_store().expect("the default context builds");
        let mut second = module.new_store().expect("the default context builds");
        let one = module
            .linker()
            .instantiate_async(&mut first, module.component())
            .await
            .expect("the guest starts");
        first.data_mut().table_mut().push(Box::new(1u8)).expect("a free handle");
        let two = module
            .linker()
            .instantiate_async(&mut second, module.component())
            .await
            .expect("the guest starts");
        assert!(one.get_func(&mut first, "run").is_some());
        assert!(two.get_func(&mut second, "run").is_some());
        (first.data().table().contains_key(6), second.data().table().contains_key(6))
    });
    assert_eq!(seen, (true, false));
}
