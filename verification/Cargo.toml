[package]
name = "uption"
version = "0.1.0"
edition = "2021"
publish = false

[dependencies]
chrono = "*"
config = "*"
crossbeam-channel = "*"
csv = "*"
ctrlc = "*"
fern = "*"
log = "*"
netlink_wi = "*"
rand = "*"
reqwest = { version = "*", default-features = false, features = ["blocking", "json"] }
serde = { version = "*", features = ["derive"] }
serde_json = "*"
trust-dns-client = "*"
url = "*"
