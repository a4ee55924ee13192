[package]
name = "keyring_flows"
version = "0.1.0"
edition = "2021"
publish = false

[dependencies]
aes = "0.8"
block-padding = "0.3"
cbc = { version = "0.1", features = ["alloc", "block-padding"] }
dbus = "0.9"
hkdf = "0.12"
keyring = { version = "3", default-features = false }
log = "0.4"
num = "0.4"
once_cell = "1"
rand = "0.8"
secrecy = "0.10"
sha2 = "0.10"
thiserror = "1"
tracing = "0.1"
