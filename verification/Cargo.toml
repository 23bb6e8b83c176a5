[package]
name = "cdk_iroh"
version = "0.1.0"
edition = "2021"
publish = false

[dependencies]
anyhow = "=1.0.104"
async-trait = "=0.1.92"
bytes = "=1.12.1"
futures = "=0.3.34"
# Not called: the 1.1 line has `url` handle international host names through the
# unicode-rs crates, which is a far smaller dependency tree than ICU4X.
idna_adapter = "=1.1.0"
iroh = { version = "=0.35.0", default-features = false }
rand = "=0.8.8"
serde = { version = "=1.0.229", features = ["derive"] }
serde_json = "=1.0.154"
thiserror = "=2.0.21"
tokio = { version = "=1.54.1", features = ["macros", "rt-multi-thread", "sync", "time"] }
tracing = "=0.1.44"
url = "=2.5.8"
