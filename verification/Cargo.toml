[package]
name = "gemma_core"
version = "0.1.0"
edition = "2021"
publish = false

[dependencies]
burn = { version = "=0.13.2", default-features = false, features = ["std", "ndarray"] }
# burn-core 0.13 was written against this bincode release candidate; the
# 2.0 final renamed the serde helpers it calls, so the resolver must not
# pick it.
bincode = { version = "=2.0.0-rc.3", default-features = false, features = ["alloc", "serde"] }
bytemuck = { version = "*", features = ["extern_crate_alloc"] }
serde = { version = "*", features = ["derive"] }
serde_json = "*"
toml = "*"
thiserror = "*"
tokio = { version = "*", features = ["fs", "io-util", "sync", "rt"] }
tracing = "*"
tracing-appender = "*"
tracing-subscriber = { version = "*", features = ["env-filter", "fmt"] }
either = { version = "*", features = ["serde"] }
indexmap = { version = "*", features = ["serde"] }
