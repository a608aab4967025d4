[package]
name = "adding_machine"
version = "0.1.0"
edition = "2021"
publish = false

[dependencies]
vrl = { version = "=0.33.1", default-features = false, features = ["compiler", "value", "diagnostic", "path", "parser", "core", "stdlib-base", "enable_crypto_functions", "enable_env_functions", "enable_system_functions"] }
serde = "=1.0.229"
serde_json = "=1.0.151"
wasmtime = { version = "=48.0.5", default-features = false, features = ["cranelift", "runtime", "std"] }

[dev-dependencies]
wat = "=1.261.0"
