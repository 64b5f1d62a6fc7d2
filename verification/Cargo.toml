[package]
name = "bolt_bls"
version = "0.1.0"
edition = "2021"
publish = false

[dependencies]
blst = "=0.3.17"
rand = "=0.8.8"
tokio = { version = "=1.53.2", features = ["macros", "rt-multi-thread"] }
async-trait = "=0.1.92"
eyre = "=0.6.14"
tracing = "=0.1.44"
