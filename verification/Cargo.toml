[package]
name = "dcs_grpc"
version = "0.8.0"
edition = "2021"
publish = false

[dependencies]
base64 = "=0.21.7"
uuid = { version = "=1.29.1", features = ["v4"] }
time = { version = "=0.3.55", features = ["formatting"] }
serde = { version = "=1.0.229", features = ["derive"] }
serde_json = "=1.0.154"
serde_repr = "=0.1.21"
thiserror = "=1.0.69"
log = "=0.4.35"
log4rs = "=1.4.0"
once_cell = "=1.21.4"
tokio = { version = "=1.54.1", features = ["full"] }
tokio-stream = "=0.1.19"
tokio-util = { version = "=0.7.20", features = ["codec", "net"] }
futures-util = { version = "=0.3.34", features = ["sink"] }
pin-project = "=1.1.13"
bytes = "=1.12.1"
tonic = "=0.11.0"
prost = "=0.12.6"
prost-types = "=0.12.6"
mlua = { version = "=0.9.9", features = ["lua51", "vendored", "serialize"] }
libloading = "=0.8.9"
igrf = "=0.2.0"
reqwest = { version = "=0.11.27", default-features = false, features = ["json", "rustls-tls"] }
ogg = "=0.9.2"
rubato = "=0.14.1"
rusoto_core = { version = "0.48", default-features = false, features = ["rustls"] }
