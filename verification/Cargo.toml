[package]
name = "protot"
version = "0.1.0"
edition = "2021"
publish = false

[dependencies]
async-stream = "0.3"
async-trait = "0.1"
clap = { version = "4", features = ["derive"] }
futures = "0.3"
hyper = { version = "0.14", features = ["full"] }
lazy_static = "1"
log = "0.4"
log4rs = "1"
num_cpus = "1"
prometheus = "0.13"
prost = "0.12"
prost-types = "0.12"
protobuf = "3"
redis = { version = "0.23", features = ["tokio-comp"] }
serde = { version = "1", features = ["derive"] }
serde_json = "1"
serde_yaml = "0.9"
tokio = { version = "1", features = ["full"] }
tokio-stream = "0.1"
tokio-util = "0.7"
tonic = "0.10"
tonic-types = "0.10"
