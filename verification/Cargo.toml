[package]
name = "toml_and_jerry"
version = "0.1.0"
edition = "2021"
publish = false

[dependencies]
serde = { version = "*", features = ["derive"] }
serde_json = "=1.0.151"
serde_yaml = "=0.9.34"
toml = "*"
toml_edit = "=0.25.15"
json-spanned-value = "=0.2.2"
hcl-rs = "=0.19.8"
jsonschema = { version = "=0.30.0", default-features = false }
clap = { version = "*", features = ["derive"] }
miette = { version = "*", features = ["fancy"] }
thiserror = "*"
reqwest = { version = "*", features = ["blocking"] }
