[package]
name = "azure_common"
version = "0.1.0"
edition = "2021"
publish = false

[dependencies]
azure_core = "0.3"
azure_identity = "0.4"
azure_storage = "0.4"
azure_storage_blobs = "0.4"
bytes = "1"
futures = "0.3"
http = "0.2"
snafu = "0.7"
tower = "0.4"
tracing = "0.1"
