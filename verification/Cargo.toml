[package]
name = "toolbelt"
version = "0.1.0"
edition = "2021"
publish = false

[dependencies]
anyhow = "1"
clap = { version = "4", features = ["derive", "env", "cargo"] }
clap_usage = "*"
config = { version = "*", default-features = false }
dbus = "*"
dbus-tokio = "*"
dirs = "*"
git2 = { version = "*", default-features = false }
image = { version = "*", default-features = false, features = ["png", "jpeg"] }
log = "0.4"
openai-api-rs = "*"
reqwest = { version = "*", default-features = false, features = ["json", "rustls-tls"] }
rumqttc = "*"
secrecy = { version = "*", features = ["serde"] }
serde = { version = "1", features = ["derive"] }
serde_json = "1"
simple_logger = "*"
strum_macros = "*"
thiserror = "*"
tokio = { version = "1", features = ["full"] }
toml = "*"
