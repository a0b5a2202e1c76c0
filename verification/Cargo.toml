[package]
name = "cargo_futhark"
version = "0.1.0"
edition = "2021"
publish = false

[dependencies]
serde_json = { version = "1", features = ["preserve_order"] }
proc-macro2 = "1"
eyre = "*"
clap = { version = "4", features = ["derive"] }
bindgen = "*"
cc = "1"
rerun_except = "*"
