[package]
name = "rnp"
version = "0.1.0"
edition = "2021"
publish = false

[dependencies]
async-trait = "0.1"
chrono = { version = "0.4", features = ["serde"] }
futures-intrusive = "0.5"
serde = { version = "1", features = ["derive"] }
socket2 = "0.4"
tokio = { version = "1", features = ["rt", "rt-multi-thread", "macros", "net", "time", "sync"] }
