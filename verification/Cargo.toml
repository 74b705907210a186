[package]
name = "web3_proxy"
version = "0.1.0"
edition = "2021"
publish = false

[dependencies]
serde_json = "1"
jsonrpc-core = "18"
web3 = { version = "*", default-features = false, features = ["http"] }
hyper = { version = "0.14", features = ["full"] }
tokio = { version = "1", features = ["macros", "rt-multi-thread"] }
log = "0.4"
simple_logger = "*"
structopt = "0.3"
async-trait = "*"
