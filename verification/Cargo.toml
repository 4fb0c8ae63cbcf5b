[package]
name = "host_application"
version = "0.1.0"
edition = "2021"
publish = false

[dependencies]
anyhow = "1"
thiserror = "1"
tokio = { version = "1", features = ["macros", "rt-multi-thread"] }
wasmtime = { version = "11", default-features = false, features = ["async", "cranelift", "wat", "component-model"] }
wasmtime-wasi = "11"
