[package]
name = "termscp_core"
version = "0.1.0"
edition = "2021"
publish = false

[dependencies]
serde = { version = "1", features = ["derive"] }
ssh2-config = "=0.9.0"
toml = "*"
tui-realm-stdlib = "3"
tuirealm = "3"
