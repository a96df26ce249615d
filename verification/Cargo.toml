[package]
name = "plrust"
version = "0.1.0"
edition = "2021"
publish = false

[dependencies]
bincode = "=1.3.3"
cfg-if = "=1.0.5"
color-eyre = "=0.6.5"
eyre = "=0.6.14"
include_dir = "=0.7.4"
libloading = "=0.7.4"
memfd = "=0.6.6"
once_cell = "=1.21.4"
pgx = "=0.7.4"
prettyplease = "0.2"
proc-macro2 = "=1.0.107"
syn = { version = "=2.0.119", features = ["full"] }
tempfile = "=3.27.0"
thiserror = "=1.0.69"
toml = "=0.5.11"
tracing = "=0.1.44"
wasmtime = "=0.38.3"
wasmtime-wasi = "=0.38.3"
