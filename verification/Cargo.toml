[package]
name = "go_analyzer"
version = "0.1.0"
edition = "2021"
publish = false

[dependencies]
similar = "=2.7.0"
clap = { version = "=4.6.7", features = ["derive"] }
rmcp = { version = "=3.8.0", features = ["server", "transport-io", "macros"] }
tokio = { version = "=1.54.1", features = ["macros", "rt-multi-thread", "io-std"] }
schemars = "=1.2.3"
serde = { version = "=1.0.229", features = ["derive"] }
tree-sitter = "=0.26.13"
tree-sitter-go = "=0.25.0"
