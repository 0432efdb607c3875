[package]
name = "bpf_artifacts"
version = "0.1.0"
edition = "2021"
publish = false

[dependencies]
cargo_metadata = "0.18"
proc-macro2 = "1.0"
quote = "1.0"
syn = { version = "2.0", features = ["full"] }
proc-macro-error = "1.0"
