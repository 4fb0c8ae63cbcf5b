//! The module handle: an engine, a compiled component and the linker that
//! binds its imports. It is built once and only read afterwards.

use crate::error::contains_text;
use crate::error::describe;
use crate::error::error_text;
use crate::error::lemma_message_names_path;
use crate::error::WasmError;
use crate::error::WasmErrorView;
use crate::protocol::next;
use crate::protocol::started;
use crate::protocol::Action;
use crate::protocol::ActionView;
use crate::protocol::Event;
use crate::protocol::EventView;
use crate::protocol::Invocation;
use crate::runtime::PluginRuntime;
use vstd::prelude::*;
use vstd::string::StringExecFns;
use wasmtime::component::Component;
use wasmtime::component::Linker;
use wasmtime::Config;
use wasmtime::Engine;
use wasmtime::Store;

verus! {

/// `wasmtime::Config`, the settings that an engine is made from.
#[verifier::external_type_specification]
#[verifier::external_body]
pub struct ExConfig(Config);

/// `wasmtime::Engine`, what compiles and runs components.
#[verifier::external_type_specification]
#[verifier::external_body]
pub struct ExEngine(Engine);

/// `wasmtime::component::Component`, a compiled component.
#[verifier::external_type_specification]
#[verifier::external_body]
pub struct ExComponent(Component);

/// `wasmtime::component::Linker`, which binds the imports of a component
/// to what the host defines, for stores with data of type `T`.
#[verifier::external_type_specification]
#[verifier::external_body]
#[verifier::reject_recursive_types(T)]
pub struct ExLinker<T>(Linker<T>);

/// `wasmtime::Store`, which owns an instance with all its state, and the
/// data of type `T` behind the host's functions.
#[verifier::external_type_specification]
#[verifier::external_body]
#[verifier::reject_recursive_types(T)]
pub struct ExStore<T>(Store<T>);

/// Whether a configuration has the component model switched on.
pub uninterp spec fn config_component_model(config: Config) -> bool;

/// Whether a configuration has asynchronous execution switched on.
pub uninterp spec fn config_async_support(config: Config) -> bool;

/// The configuration that an engine was made from and works by.
pub uninterp spec fn engine_config(engine: Engine) -> Config;

/// The engine that a linker was made for.
pub uninterp spec fn linker_engine(linker: Linker<PluginRuntime>) -> Engine;

/// The names that a linker defines at its root.
pub uninterp spec fn linker_names(linker: Linker<PluginRuntime>) -> Set<Seq<char>>;

/// The data that a store owns.
pub uninterp spec fn store_data(store: Store<PluginRuntime>) -> PluginRuntime;

/// The engine that a store belongs to.
pub uninterp spec fn store_engine(store: Store<PluginRuntime>) -> Engine;

/// `Config::new`: the default configuration. Nothing is stated of it: both
/// switches that matter here are set afterwards.
#[verifier::external_body]
fn default_config() -> (config: Config) {
    Config::new()
}

/// `Config::wasm_component_model`: sets that switch and no other.
#[verifier::external_body]
fn set_component_model(config: &mut Config, enable: bool)
    ensures
        config_component_model(*final(config)) == enable,
        config_async_support(*final(config)) == config_async_support(*old(config)),
{
    config.wasm_component_model(enable);
}

/// `Config::async_support`: sets that switch and no other.
#[verifier::external_body]
fn set_async_support(config: &mut Config, enable: bool)
    ensures
        config_async_support(*final(config)) == enable,
        config_component_model(*final(config)) == config_component_model(*old(config)),
{
    config.async_support(enable);
}

/// `Engine::new`: an engine that works by a copy of `config`; making it
/// changes neither of the two switches. Whether the configuration is
/// accepted is for the engine to say.
#[verifier::external_body]
fn engine_new(config: &Config) -> (made: Result<Engine, anyhow::Error>)
    ensures
        made matches Ok(engine) ==> {
            &&& config_component_model(engine_config(engine)) == config_component_model(*config)
            &&& config_async_support(engine_config(engine)) == config_async_support(*config)
        },
{
    Engine::new(config)
}

/// `Component::new`: compiles a component from its binary or text form.
/// Nothing is stated of the outcome.
#[verifier::external_body]
fn compile(engine: &Engine, image: &Vec<u8>) -> (compiled: Result<Component, anyhow::Error>) {
    Component::new(engine, image)
}

/// `Linker::new`: a linker for `engine` in which nothing is defined yet.
#[verifier::external_body]
fn empty_linker(engine: &Engine) -> (linker: Linker<PluginRuntime>)
    ensures
        linker_engine(linker) == *engine,
        linker_names(linker) == Set::<Seq<char>>::empty(),
{
    Linker::new(engine)
}

/// `Linker::engine`: the engine that the linker was made for.
#[verifier::external_body]
fn engine_of(linker: &Linker<PluginRuntime>) -> (engine: &Engine)
    ensures
        *engine == linker_engine(*linker),
{
    linker.engine()
}

/// `Engine::same`: whether the two are one engine, shared.
#[verifier::external_body]
fn same_engine(first: &Engine, second: &Engine) -> (same: bool)
    ensures
        same == (*first == *second),
{
    Engine::same(first, second)
}

/// `wasmtime_wasi::preview2::wasi::command::add_to_linker`: defines the
/// thirteen instances of the system interface at the root of the linker,
/// one after the other, each with its functions bound to the context of
/// the store that a call comes from. It fails only on a name that is
/// taken, and stops there. It removes nothing and leaves the engine of
/// the linker as it is. The functions are asynchronous ones, which the
/// linker takes only for an engine with asynchronous execution on.
#[verifier::external_body]
fn link_system_interface(linker: &mut Linker<PluginRuntime>) -> (linked: Result<
    (),
    anyhow::Error,
>)
    requires
        config_async_support(engine_config(linker_engine(*old(linker)))),
    ensures
        linker_engine(*final(linker)) == linker_engine(*old(linker)),
        linker_names(*old(linker)).subset_of(linker_names(*final(linker))),
        linked is Ok ==> system_interface_names().subset_of(linker_names(*final(linker))),
        linker_names(*old(linker)).disjoint(system_interface_names()) ==> linked is Ok,
{
    wasmtime_wasi::preview2::wasi::command::add_to_linker(linker)
}

/// `Store::new`: a store of `engine` that owns `data`.
#[verifier::external_body]
fn store_new(engine: &Engine, data: PluginRuntime) -> (store: Store<PluginRuntime>)
    ensures
        store_data(store) == data,
        store_engine(store) == *engine,
{
    Store::new(engine, data)
}

/// Whether an engine runs components, and runs them asynchronously.
pub open spec fn runs_components_async(engine: Engine) -> bool {
    &&& config_component_model(engine_config(engine))
    &&& config_async_support(engine_config(engine))
}

/// The names of the instances of the system interface.
pub open spec fn system_interface_names() -> Set<Seq<char>> {
    set![
        "wasi:clocks/wall-clock"@,
        "wasi:clocks/monotonic-clock"@,
        "wasi:clocks/timezone"@,
        "wasi:filesystem/filesystem"@,
        "wasi:poll/poll"@,
        "wasi:io/streams"@,
        "wasi:random/random"@,
        "wasi:cli-base/exit"@,
        "wasi:cli-base/environment"@,
        "wasi:cli-base/preopens"@,
        "wasi:cli-base/stdin"@,
        "wasi:cli-base/stdout"@,
        "wasi:cli-base/stderr"@,
    ]
}

/// The cause of the `LinkError` for a linker that is no longer the one
/// that was handed out.
pub open spec fn replaced_linker() -> Seq<char> {
    "the linker was replaced by one of another engine"@
}

/// An engine with the component model and asynchronous execution on.
fn plugin_engine() -> (made: Result<Engine, anyhow::Error>)
    ensures
        made matches Ok(engine) ==> runs_components_async(engine),
{
    let mut config = default_config();
    set_component_model(&mut config, true);
    set_async_support(&mut config, true);
    engine_new(&config)
}

/// The steps of building a module handle, in their order.
#[derive(Debug, Clone, Copy, PartialEq, Eq, Structural)]
pub enum LoadStep {
    /// Configuring the engine.
    Engine,
    /// Reading the image of the component and compiling it.
    Image,
    /// Registering the host's own functions.
    HostImports,
    /// Registering the system interface.
    SystemImports,
}

/// The error of a step that failed for `cause`, for the module at `path`:
/// a `ConfigError` for the engine, a `LoadError` for the image, and a
/// `LinkError` for either registration, each with the cause and the path.
pub open spec fn failure(step: LoadStep, cause: Seq<char>, path: Seq<char>) -> WasmErrorView {
    match step {
        LoadStep::Engine => WasmErrorView::ConfigError { cause, path },
        LoadStep::Image => WasmErrorView::LoadError { cause, path },
        LoadStep::HostImports => WasmErrorView::LinkError { cause, path },
        LoadStep::SystemImports => WasmErrorView::LinkError { cause, path },
    }
}

/// The error with which building the handle of the module at `path` ends
/// when `step` fails for `cause`.
pub fn failed(step: LoadStep, cause: &str, path: &str) -> (error: WasmError)
    ensures
        error@ == failure(step, cause@, path@),
{
    match step {
        LoadStep::Engine => WasmError::config(cause, path),
        LoadStep::Image => WasmError::load(cause, path),
        LoadStep::HostImports => WasmError::link(cause, path),
        LoadStep::SystemImports => WasmError::link(cause, path),
    }
}

/// Whatever step fails, and for whatever cause, no handle is left: the
/// error is one of the three that invalidate it, it carries the path of
/// the module, and what it shows to a user holds that path.
pub proof fn lemma_failed_load_leaves_no_handle(step: LoadStep, cause: Seq<char>, path: Seq<char>)
    ensures
        failure(step, cause, path).invalidates_handle(),
        failure(step, cause, path).path() == Some(path),
        contains_text(failure(step, cause, path).message(), path),
        contains_text(failure(step, cause, path).rendered(), path),
{
    lemma_message_names_path(failure(step, cause, path));
}

/// A plugin, ready to be invoked: the engine, the compiled component, and
/// the linker with the host's functions and the system interface.
pub struct WasmModule {
    module: Component,
    linker: Linker<PluginRuntime>,
    engine: Engine,
}

impl WasmModule {
    #[verifier::type_invariant]
    spec fn well_formed(self) -> bool {
        &&& runs_components_async(self.engine)
        &&& linker_engine(self.linker) == self.engine
        &&& system_interface_names().subset_of(linker_names(self.linker))
    }

    /// The engine of the handle.
    pub closed spec fn engine_view(&self) -> Engine {
        self.engine
    }

    /// The compiled component.
    pub closed spec fn component_view(&self) -> Component {
        self.module
    }

    /// The linker.
    pub closed spec fn linker_view(&self) -> Linker<PluginRuntime> {
        self.linker
    }

    /// What holds of every handle: its engine runs components, and runs
    /// them asynchronously; its linker was made for that engine; and the
    /// linker defines the instances of the system interface.
    pub open spec fn is_sound(&self) -> bool {
        &&& runs_components_async(self.engine_view())
        &&& linker_engine(self.linker_view()) == self.engine_view()
        &&& system_interface_names().subset_of(linker_names(self.linker_view()))
    }

    /// Builds the handle of the plugin at `path`.
    ///
    /// `image` is what reading `path` gave: the bytes of the component, or
    /// the reason why it could not be read. `register_host` defines the
    /// host's own functions in the linker; the system interface is defined
    /// after it.
    ///
    /// The steps run in this order, and the first that fails ends the
    /// attempt: the engine (`ConfigError`), the image and its compilation
    /// (`LoadError`), the host's functions and the system interface
    /// (`LinkError`). Whether the engine can be made is for the engine to
    /// say; what follows from its answer is what `with_engine` states.
    pub fn new<F>(path: &str, image: Result<Vec<u8>, String>, register_host: F) -> (made: Result<
        WasmModule,
        WasmError,
    >) where F: FnOnce(&mut Linker<PluginRuntime>) -> Result<(), String>
        requires
            forall|linker: &mut Linker<PluginRuntime>| register_host.requires((linker,)),
        ensures
            made matches Ok(module) ==> image is Ok && module.is_sound(),
            made matches Err(error) ==> error@.invalidates_handle() && exists|
                step: LoadStep,
                cause: Seq<char>,
            | error@ == #[trigger] failure(step, cause, path@),
            image matches Err(cause) ==> made matches Err(error) && (error is ConfigError
                || error@ == failure(LoadStep::Image, cause@, path@)),
    {
        let made_engine = plugin_engine();
        WasmModule::with_engine(made_engine, path, image, register_host)
    }

    /// Builds the handle from the outcome of making the engine.
    ///
    /// A failed engine comes first: it gives the `ConfigError` of its
    /// cause, whatever the image is. With an engine, an image that could
    /// not be read gives the `LoadError` of its cause. Else the image is
    /// compiled by that engine, and `with_component` goes on with the
    /// outcome.
    pub fn with_engine<F>(
        made_engine: Result<Engine, anyhow::Error>,
        path: &str,
        image: Result<Vec<u8>, String>,
        register_host: F,
    ) -> (made: Result<WasmModule, WasmError>) where
        F: FnOnce(&mut Linker<PluginRuntime>) -> Result<(), String>,

        requires
            forall|linker: &mut Linker<PluginRuntime>| register_host.requires((linker,)),
            made_engine matches Ok(engine) ==> runs_components_async(engine),
        ensures
            made_engine matches Err(error) ==> made matches Err(e) && e@ == failure(
                LoadStep::Engine,
                error_text(error),
                path@,
            ),
            made_engine is Ok && image is Err ==> (made matches Err(e) && e@ == failure(
                LoadStep::Image,
                image->Err_0@,
                path@,
            )),
            made matches Ok(module) ==> {
                &&& made_engine is Ok && image is Ok
                &&& module.engine_view() == made_engine->Ok_0
                &&& module.is_sound()
            },
            made_engine is Ok && image is Ok ==> (made matches Err(e) ==> exists|
                step: LoadStep,
                cause: Seq<char>,
            | step != LoadStep::Engine && e@ == #[trigger] failure(step, cause, path@)),
    {
        let engine = match made_engine {
            Ok(engine) => engine,
            Err(error) => {
                let cause = describe(&error);
                return Err(failed(LoadStep::Engine, cause.as_str(), path));
            },
        };
        let bytes = match image {
            Ok(bytes) => bytes,
            Err(cause) => {
                return Err(failed(LoadStep::Image, cause.as_str(), path));
            },
        };
        let compiled = compile(&engine, &bytes);
        WasmModule::with_component(engine, compiled, path, register_host)
    }

    /// Builds the handle from an engine and the outcome of compiling the
    /// image with it.
    ///
    /// A failed compilation gives the `LoadError` of its cause. Else a
    /// linker is made for the engine, with nothing defined in it, and
    /// handed to `register_host`; `with_host_imports` goes on with the
    /// outcome.
    pub fn with_component<F>(
        engine: Engine,
        compiled: Result<Component, anyhow::Error>,
        path: &str,
        register_host: F,
    ) -> (made: Result<WasmModule, WasmError>) where
        F: FnOnce(&mut Linker<PluginRuntime>) -> Result<(), String>,

        requires
            forall|linker: &mut Linker<PluginRuntime>| register_host.requires((linker,)),
            runs_components_async(engine),
        ensures
            compiled matches Err(error) ==> made matches Err(e) && e@ == failure(
                LoadStep::Image,
                error_text(error),
                path@,
            ),
            made matches Ok(module) ==> {
                &&& compiled is Ok
                &&& module.engine_view() == engine
                &&& module.component_view() == compiled->Ok_0
                &&& module.is_sound()
            },
            compiled is Ok ==> (made matches Err(e) ==> exists|
                step: LoadStep,
                cause: Seq<char>,
            |
                (step == LoadStep::HostImports || step == LoadStep::SystemImports) && e@
                    == #[trigger] failure(step, cause, path@)),
    {
        let module = match compiled {
            Ok(module) => module,
            Err(error) => {
                let cause = describe(&error);
                return Err(failed(LoadStep::Image, cause.as_str(), path));
            },
        };
        let mut linker = empty_linker(&engine);
        let registered = register_host(&mut linker);
        WasmModule::with_host_imports(engine, module, linker, registered, path)
    }

    /// Builds the handle from an engine, a component, and the linker with
    /// the outcome of registering the host's functions in it.
    ///
    /// A failed registration gives the `LinkError` of its cause. A linker
    /// that is not of `engine` any more, because the registration has put
    /// another in its place, gives a `LinkError` that says so. Else the
    /// system interface is registered in the linker, and
    /// `with_system_imports` goes on with the outcome; where the host has
    /// taken none of the names of the system interface, that is the
    /// handle.
    pub fn with_host_imports(
        engine: Engine,
        module: Component,
        linker: Linker<PluginRuntime>,
        registered: Result<(), String>,
        path: &str,
    ) -> (made: Result<WasmModule, WasmError>)
        requires
            runs_components_async(engine),
        ensures
            registered matches Err(cause) ==> made matches Err(e) && e@ == failure(
                LoadStep::HostImports,
                cause@,
                path@,
            ),
            registered is Ok && linker_engine(linker) != engine ==> (made matches Err(e) && e@
                == failure(LoadStep::HostImports, replaced_linker(), path@)),
            made matches Ok(handle) ==> {
                &&& registered is Ok
                &&& linker_engine(linker) == engine
                &&& handle.engine_view() == engine
                &&& handle.component_view() == module
                &&& linker_names(linker).subset_of(linker_names(handle.linker_view()))
                &&& handle.is_sound()
            },
            registered is Ok && linker_engine(linker) == engine ==> (made matches Err(e)
                ==> exists|cause: Seq<char>|
                e@ == #[trigger] failure(LoadStep::SystemImports, cause, path@)),
            registered is Ok && linker_engine(linker) == engine && linker_names(linker).disjoint(
                system_interface_names(),
            ) ==> made is Ok,
    {
        match registered {
            Ok(()) => {},
            Err(cause) => {
                return Err(failed(LoadStep::HostImports, cause.as_str(), path));
            },
        }
        if !same_engine(engine_of(&linker), &engine) {
            return Err(
                failed(
                    LoadStep::HostImports,
                    "the linker was replaced by one of another engine",
                    path,
                ),
            );
        }
        let mut linker = linker;
        let linked = link_system_interface(&mut linker);
        WasmModule::with_system_imports(engine, module, linker, linked, path)
    }

    /// Builds the handle from its three parts and the outcome of
    /// registering the system interface in the linker: a failed
    /// registration gives the `LinkError` of its cause, and a registration
    /// that succeeded gives the handle of the three parts.
    pub fn with_system_imports(
        engine: Engine,
        module: Component,
        linker: Linker<PluginRuntime>,
        linked: Result<(), anyhow::Error>,
        path: &str,
    ) -> (made: Result<WasmModule, WasmError>)
        requires
            runs_components_async(engine),
            linker_engine(linker) == engine,
            linked is Ok ==> system_interface_names().subset_of(linker_names(linker)),
        ensures
            linked matches Err(error) ==> made matches Err(e) && e@ == failure(
                LoadStep::SystemImports,
                error_text(error),
                path@,
            ),
            linked is Ok ==> (made matches Ok(handle) && handle.engine_view() == engine
                && handle.component_view() == module && handle.linker_view() == linker
                && handle.is_sound()),
    {
        match linked {
            Ok(()) => Ok(WasmModule { module, linker, engine }),
            Err(error) => {
                let cause = describe(&error);
                Err(failed(LoadStep::SystemImports, cause.as_str(), path))
            },
        }
    }

    /// The engine of the handle.
    pub fn engine(&self) -> (engine: &Engine)
        ensures
            *engine == self.engine_view(),
            self.is_sound(),
    {
        proof {
            use_type_invariant(self);
        }
        &self.engine
    }

    /// The compiled component.
    pub fn component(&self) -> (component: &Component)
        ensures
            *component == self.component_view(),
    {
        &self.module
    }

    /// The linker, with the host's functions and the system interface.
    pub fn linker(&self) -> (linker: &Linker<PluginRuntime>)
        ensures
            *linker == self.linker_view(),
            self.is_sound(),
    {
        proof {
            use_type_invariant(self);
        }
        &self.linker
    }

    /// The store of one invocation: a store of the handle's engine around a
    /// fresh context that grants nothing. The handle is only read, and the
    /// store is always made; the result says so in its type only because
    /// building a context can fail on a table that is full.
    pub fn new_store(&self) -> (made: Result<Store<PluginRuntime>, WasmError>)
        ensures
            made matches Ok(store) && {
                &&& store_data(store).grants_nothing()
                &&& store_engine(store) == self.engine_view()
                &&& store_engine(store) == linker_engine(self.linker_view())
                &&& runs_components_async(store_engine(store))
            },
    {
        proof {
            use_type_invariant(self);
        }
        match PluginRuntime::new() {
            Ok(runtime) => Ok(store_new(&self.engine, runtime)),
            Err(error) => Err(error),
        }
    }

    /// Begins an invocation with `arg`, and takes its first step: it makes
    /// the store of the invocation, around a fresh context that grants
    /// nothing. The handle is only read.
    ///
    /// With the store comes the invocation, waiting for the instance, and
    /// what is to be done next: to instantiate the component in that
    /// store. The store is always there; the result leaves room for an
    /// invocation that ended because no context could be built.
    pub fn invoke(&self, arg: &str) -> (begun: (
        Invocation,
        Action,
        Option<Store<PluginRuntime>>,
    ))
        ensures
            begun.0@ == next(started(arg@), EventView::StoreReady).0,
            begun.1@ == ActionView::Instantiate,
            begun.2 matches Some(store) && {
                &&& store_data(store).grants_nothing()
                &&& store_engine(store) == self.engine_view()
                &&& store_engine(store) == linker_engine(self.linker_view())
                &&& runs_components_async(store_engine(store))
            },
    {
        let mut invocation = Invocation::begin(arg);
        match self.new_store() {
            Ok(store) => {
                let action = invocation.step(Event::StoreReady);
                (invocation, action.unwrap(), Some(store))
            },
            Err(error) => {
                let cause = error.message();
                let action = invocation.step(Event::ContextFailed(cause));
                (invocation, action.unwrap(), None)
            },
        }
    }
}

} // verus!
