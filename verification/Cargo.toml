[package]
name = "cargo_uv"
version = "0.1.0"
edition = "2021"
publish = false

[dependencies]
cargo_metadata = "*"
clap = { version = "4", features = ["derive"] }
clap-cargo = "*"
clap-verbosity-flag = { version = "*", features = ["tracing"] }
colorchoice-clap = "*"
indexmap = "2"
miette = { version = "7", features = ["fancy"] }
rusty_viking = "*"
semver = "1"
thiserror = "*"
toml_edit = "*"
tracing = "0.1"
tracing-subscriber = { version = "0.3", features = ["env-filter"] }
