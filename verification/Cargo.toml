[package]
name = "openfeature_flipt"
version = "0.1.0"
edition = "2021"
publish = false

[dependencies]
serde_json = "1"
url = "2"
open-feature = "*"
async-trait = "0.1"
