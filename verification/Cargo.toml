[package]
name = "lsp-ws-proxy"
version = "0.9.0"
edition = "2021"
publish = false

[dependencies]
argh = "0.1"
bytes = "1"
futures-util = { version = "0.3", default-features = false, features = ["sink", "std"] }
serde = { version = "1", features = ["derive"] }
serde_json = "1"
thiserror = "1"
tokio = { version = "1", features = ["fs", "process", "macros", "rt", "rt-multi-thread", "time", "io-util"] }
tokio-util = { version = "0.7", features = ["codec"] }
tracing = "0.1"
tracing-subscriber = { version = "0.3", features = ["env-filter"] }
url = "2"
warp = { version = "0.3", default-features = false, features = ["websocket"] }

[dev-dependencies]
nom = "7"
lsp-types = "0.89"
