[package]
name = "skycrane"
version = "0.1.0"
edition = "2021"
publish = false

[dependencies]
anyhow = "=1.0.104"
structopt = "=0.3.26"
tokio = { version = "=1.53.2", features = ["fs", "macros", "rt-multi-thread"] }
tracing = "=0.1.44"
tracing-subscriber = "=0.3.23"
wasmtime = "=40.0.4"
wasmtime-wasi = "=40.0.4"

[dev-dependencies]
once_cell = "=1.21.4"
