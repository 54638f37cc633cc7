[package]
name = "nu_discord_bot"
version = "0.1.0"
edition = "2021"
publish = false

[dependencies]
const-hex = "=1.19.3"
hex = "=0.4.3"
ed25519-dalek = "=2.2.0"
twilight-model = "=0.16.0"
twilight-util = { version = "=0.16.0", features = ["builder"] }
twilight-http = "=0.16.0"
humantime = "=2.4.0"
console = "=0.15.11"
anyhow = "=1.0.104"
axum = "=0.8.9"
tokio = { version = "=1.54.1", features = ["full"] }
reqwest = { version = "=0.12.28", default-features = false, features = ["rustls-tls"] }
serde_json = "=1.0.154"
tracing = "=0.1.44"
bytes = "=1.12.1"
itertools = "=0.14.0"
image = { version = "=0.25.10", default-features = false, features = ["png"] }
cosmic-text = "=0.12.1"
vt100 = "=0.15.2"
unicode-width = "=0.1.14"
wasmtime = { version = "=33.0.2", default-features = false, features = ["cranelift", "component-model", "async", "runtime", "std"] }
wasmtime-wasi = "=33.0.2"
static-toml = "=1.3.0"
