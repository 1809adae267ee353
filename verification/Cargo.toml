[package]
name = "docgraph"
version = "0.1.0"
edition = "2021"
publish = false

[dependencies]
rls-analysis = "=0.18.3"
jsonapi = "=0.5.4"
serde_json = "=1.0.154"
