[package]
name = "spell_framework"
version = "0.1.0"
edition = "2021"
publish = false

[dependencies]
rust-fuzzy-search = "=0.1.1"
smithay-client-toolkit = { version = "=0.20.0", default-features = false }
zbus = "=5.19.0"
futures-util = "=0.3.34"

[dev-dependencies]
xkeysym = "=0.2.1"
