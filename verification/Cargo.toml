[package]
name = "swirl"
version = "0.1.0"
edition = "2021"
publish = false

[dependencies]
serde = { version = "=1.0.229", features = ["derive"] }
serde_json = "=1.0.154"
min-id = "=0.1.0"
diesel = { version = "=2.3.14", features = ["postgres", "serde_json"] }
deadpool = "=0.12.3"
deadpool-diesel = { version = "=0.6.1", features = ["postgres"] }
tokio = { version = "=1.54.1", features = ["rt", "rt-multi-thread", "macros", "time"] }
futures = "=0.3.34"
inventory = "=0.3.25"
async-trait = "=0.1.92"
syn = { version = "=2.0.119", features = ["full"] }
quote = "=1.0.47"
proc-macro2 = "=1.0.107"
