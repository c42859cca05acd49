[package]
name = "net_loginer"
version = "0.1.0"
edition = "2021"
publish = false

[dependencies]
serde_json = "1"
url = "2"
zune-jpeg = "0.4"
resize = "0.8"
rgb = "0.8"
reqwest = { version = "0.12", default-features = false, features = ["rustls-tls"] }
tokio = { version = "1", features = ["rt", "macros"] }
get_if_addrs = "0.5"
log = "0.4"
simple_logger = "5"
dotenvy = "0.15"
anyhow = "1"
ndarray = "0.16"
ort = { version = "=2.0.0-rc.13", default-features = false, features = ["load-dynamic", "ndarray"] }

[dev-dependencies]
jpeg-encoder = "0.6"
