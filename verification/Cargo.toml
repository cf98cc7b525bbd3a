[package]
name = "musty"
version = "0.1.0"
edition = "2021"
publish = false

[dependencies]
anyhow = "1"
async-trait = "0.1"
bson = "2"
darling = "0.14"
futures = "0.3"
mongodb = "2"
proc-macro-error = "1"
proc-macro2 = "1"
quote = "1"
serde = { version = "1", features = ["derive"] }
syn = { version = "1", features = ["full"] }
thiserror = "1"
