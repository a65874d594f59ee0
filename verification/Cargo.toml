[package]
name = "shim_verifier"
version = "0.1.0"
edition = "2021"
publish = false

[dependencies]
rustls = { version = "0.23", default-features = false, features = ["ring", "std"] }

[dev-dependencies]
rcgen = { version = "0.13", default-features = false, features = ["crypto", "ring"] }
openssl-sys = "0.9"
