[package]
name = "containerd_shim_wasm"
version = "0.1.0"
edition = "2021"
publish = false

[dependencies]
chrono = "*"
nix = { version = "=0.29.0", features = ["process", "signal"] }
oci-spec = "*"
tokio = { version = "*", features = ["full"] }
log = "*"
libcontainer = { version = "*", default-features = false, features = ["v2"] }
