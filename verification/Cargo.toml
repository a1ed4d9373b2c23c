[package]
name = "matrix_sdk_ffi"
version = "0.1.0"
edition = "2021"
publish = false

[dependencies]
anyhow = "=1.0.104"
async-compression = { version = "=0.4.52", features = ["tokio", "zstd"] }
chrono = "=0.4.45"
eyeball-im = "=0.9.1"
futures-util = "=0.3.34"
mime = "=0.3.17"
ruma = { version = "=0.14.1", features = ["events", "client-api-c", "compat-arbitrary-length-ids", "rand", "unstable-extensible-events", "unstable-msc2545", "unstable-msc3245", "unstable-msc3381", "unstable-msc3401", "unstable-msc3488", "unstable-msc3489", "unstable-msc4075", "unstable-msc4108", "unstable-msc4140", "unstable-msc4143", "unstable-msc4171", "unstable-msc4186", "unstable-msc4278", "unstable-msc4306", "unstable-msc4310", "unstable-msc4334", "unstable-msc4380"] }
serde = { version = "=1.0.229", features = ["derive"] }
serde_json = "=1.0.154"
thiserror = "=2.0.21"
tokio = { version = "=1.54.1", features = ["fs", "io-util", "macros", "rt-multi-thread", "sync", "time"] }
tokio-tar = "=0.3.1"
tracing = "=0.1.44"
tracing-core = "=0.1.36"
tracing-appender = "=0.2.5"
tracing-subscriber = { version = "=0.3.23", features = ["env-filter"] }
url = "=2.5.8"
zeroize = "=1.9.1"
zxcvbn = "=3.1.1"
