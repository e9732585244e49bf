[package]
name = "age_plugin_hpke"
version = "0.1.0"
edition = "2021"
publish = false

[dependencies]
hpke = { version = "=0.12.0", features = ["p384"] }
rand = "=0.8.8"
age-core = "=0.12.0"
age-plugin = "=0.7.0"
bech32 = "=0.9.1"
chrono = "=0.4.45"
clap = { version = "=4.6.7", features = ["derive"] }
clap-verbosity-flag = "=2.2.3"

[dev-dependencies]
hex = "=0.4.3"
