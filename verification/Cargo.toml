[package]
name = "pharia_skill"
version = "0.1.0"
edition = "2021"
publish = false

[dependencies]
anyhow = "=1.0.104"
jiff = "=0.2.38"
proc-macro2 = "=1.0.107"
quote = "=1.0.47"
schemars = "=0.8.22"
serde = { version = "=1.0.229", features = ["derive"] }
serde-bool = "=0.1.6"
serde_json = "=1.0.154"
syn = { version = "=2.0.119", features = ["full"] }
ureq = { version = "=2.12.1", default-features = false, features = ["json"] }

[dev-dependencies]
jsonschema = { version = "*", default-features = false }
