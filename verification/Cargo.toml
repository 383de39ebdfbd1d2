[package]
name = "airsim_client"
version = "0.1.0"
edition = "2021"
publish = false

[dependencies]
rmpv = "=1.3.1"
num-traits = "=0.2.19"
async-std = "=1.13.2"
futures = "=0.3.34"
log = "=0.4.34"
thiserror = "=2.0.21"

[dev-dependencies]
msgpack-rpc = "=0.4.2"
