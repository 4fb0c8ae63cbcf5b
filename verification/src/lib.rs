//! A minimal host for sandboxed WebAssembly component plugins.
//!
//! A [`WasmModule`] is built once per plugin and never changes afterwards.
//! Every invocation runs in a store of its own, around a [`PluginRuntime`]
//! that starts without any grant, and follows the steps that
//! [`Invocation`] lays down.

pub mod error;
pub mod module;
pub mod protocol;
pub mod runtime;

pub use error::WasmError;
pub use error::WasmErrorView;
pub use module::LoadStep;
pub use module::WasmModule;
pub use protocol::Action;
pub use protocol::Event;
pub use protocol::Invocation;
pub use protocol::Phase;
pub use runtime::PluginRuntime;
