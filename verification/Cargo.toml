[package]
name = "uniffi_dart"
version = "0.1.0"
edition = "2021"
publish = false

[dependencies]
heck = "=0.5.0"
genco = "=0.17.10"
uniffi_bindgen = "=0.29.5"
uniffi = { version = "=0.29.5", features = ["tokio"] }
futures = "=0.3.34"
once_cell = "=1.21.4"
tokio = { version = "=1.54.1", features = ["time", "sync"] }
thiserror = "=1.0.69"
async-trait = "=0.1.92"
syn = { version = "=2.0.119", features = ["full"] }
quote = "=1.0.47"
proc-macro2 = "=1.0.107"
stringcase = "=1.0.0"

[dev-dependencies]
uniffi_meta = "=0.29.5"
