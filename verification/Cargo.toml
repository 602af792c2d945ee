[package]
name = "leafish"
version = "0.1.0"
edition = "2021"
publish = false

[dependencies]
log = "=0.4.35"
rand = "=0.8.8"
rand_pcg = "=0.3.1"
dirs = "=5.0.1"
serde_json = "=1.0.154"
parking_lot = "=0.12.5"
structopt = "=0.3.26"
byteorder = "=1.5.0"
reqwest = { version = "=0.11.27", default-features = false, features = ["blocking", "rustls-tls"] }
zip = { version = "=0.6.6", default-features = false, features = ["deflate"] }
