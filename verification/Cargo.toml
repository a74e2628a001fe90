[package]
name = "graphql_parser"
version = "0.1.0"
edition = "2021"
publish = false

[dependencies]
serde_json = "1"
async-trait = "0.1"
surf = { version = "2", default-features = false, features = ["h1-client-rustls"] }
