[package]
name = "bigtable_rs"
version = "0.1.0"
edition = "2021"
publish = false

[dependencies]
debug-ignore = "1"
futures-util = "0.3"
gcp_auth = "0.12"
hyper-util = { version = "0.1", features = ["tokio"] }
log = "0.4"
thiserror = "2"
tokio = { version = "1", features = ["net", "rt", "time"] }
tonic = { version = "0.14", default-features = false, features = ["codegen", "transport", "tls-ring"] }
tower = { version = "0.5", features = ["util"] }

[dev-dependencies]
tokio = { version = "1", features = ["io-util", "rt", "test-util", "time"] }
