[package]
name = "sec_edgar"
version = "0.1.0"
edition = "2021"
publish = false

[dependencies]
atom_syndication = "0.12"
log = "0.4"
regex = "1"
reqwest = { version = "0.11", features = ["gzip", "deflate"] }
serde = { version = "1", features = ["derive"] }
serde-xml-rs = "0.6"
thiserror = "1"
url = "2"
