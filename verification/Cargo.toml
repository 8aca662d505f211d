[package]
name = "home_companion"
version = "0.1.0"
edition = "2021"
publish = false

[dependencies]
anyhow = "1"
chrono = "0.4"
clap = { version = "4", features = ["derive", "env"] }
dotenvy = "0.15"
futures = "0.3"
prost = "=0.13.5"
rmp-serde = "=1.3.1"
serde = { version = "=1.0.229", features = ["derive"] }
serde-transcode = "=1.1.1"
serde_with = { version = "3", features = ["chrono_0_4"] }
tokio = { version = "1", features = ["macros", "rt-multi-thread"] }
toml = "=0.8.23"
tracing = "0.1"
tracing-subscriber = "0.3"
ureq = { version = "2", default-features = false, features = ["json"] }
wasmtime = { version = "=46.0.3", default-features = false, features = ["async", "cranelift", "runtime", "std"] }
