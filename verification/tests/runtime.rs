use host_application::PluginRuntime;
use host_application::WasmError;
use wasmtime_wasi::preview2::Table;
use wasmtime_wasi::preview2::WasiCtxBuilder;
use wasmtime_wasi::preview2::WasiView;

#[test]
fn fresh_context_holds_the_three_standard_streams() {
    let runtime = PluginRuntime::new().expect("the default context builds");
    for key in 3..6u32 {
        assert!(runtime.table().contains_key(key));
    }
    for key in [0u32, 1, 2, 6, 7, 100] {
        assert!(!runtime.table().contains_key(key));
    }
}

#[test]
fn fresh_context_is_always_built() {
    for _ in 0..20 {
        assert!(PluginRuntime::new().is_ok());
    }
}

#[test]
fn next_resource_of_a_fresh_context_gets_the_handle_six() {
    let mut first = PluginRuntime::new().expect("the default context builds");
    let mut second = PluginRuntime::new().expect("the default context builds");
    assert_eq!(first.table_mut().push(Box::new(1u8)).expect("a free handle"), 6);
    assert_eq!(first.table_mut().push(Box::new(2u8)).expect("a free handle"), 7);
    assert_eq!(second.table_mut().push(Box::new(3u8)).expect("a free handle"), 6);
    assert!(!second.table().contains_key(7));
    let third = PluginRuntime::new().expect("the default context builds");
    assert!(!third.table().contains_key(6));
}

#[test]
fn context_and_table_are_kept_together() {
    let mut table = Table::new();
    table.push(Box::new(9u8)).expect("a free handle");
    let built = WasiCtxBuilder::new().build(&mut table);
    let mut runtime = PluginRuntime::assemble(table, built).expect("the context was built");
    for key in 3..7u32 {
        assert!(runtime.table().contains_key(key));
    }
    assert!(!runtime.table().contains_key(7));
    assert_eq!(runtime.table_mut().push(Box::new(1u8)).expect("a free handle"), 7);
    let _ctx = runtime.ctx();
    let _ctx = runtime.ctx_mut();
}

#[test]
fn failed_build_is_a_context_error_with_its_text() {
    let made = PluginRuntime::assemble(Table::new(), Err(anyhow::Error::msg("out of handles")));
    match made {
        Err(error) => assert_eq!(error, WasmError::ContextError("out of handles".to_string())),
        Ok(_) => panic!("a failed build gives no context"),
    }
}
