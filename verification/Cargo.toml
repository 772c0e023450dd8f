[package]
name = "rpc_server"
version = "0.1.0"
edition = "2021"
publish = false

[dependencies]
serde = { version = "=1.0.229", features = ["derive"] }
serde_json = { version = "=1.0.154", features = ["preserve_order"] }
tokio = { version = "=1.54.1", features = ["macros", "rt-multi-thread", "net"] }
axum = { version = "=0.8.9", features = ["ws"] }
yerpc = { version = "=0.7.0", features = ["support-axum"] }
typescript-type-def = { version = "=0.5.15", features = ["json_value"] }
