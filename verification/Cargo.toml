[package]
name = "hitbox"
version = "0.1.0"
edition = "2021"
publish = false

[dependencies]
chrono = { version = "=0.4.45", features = ["serde"] }
bytes = "=1.12.1"
feoxdb = "=0.6.0"
bincode = { version = "=2.0.1", features = ["serde"] }
serde = { version = "=1.0.229", features = ["derive"] }
convert_case = "=0.12.0"
tokio = { version = "=1.54.1", features = ["rt", "rt-multi-thread", "macros"] }
async-trait = "=0.1.92"
syn = { version = "=2.0.119", features = ["full"] }
quote = "=1.0.47"
proc-macro2 = "=1.0.107"
thiserror = "=2.0.21"

[dev-dependencies]
tempfile = "3"
