[package]
name = "grpc-binary-logger"
version = "0.1.0"
edition = "2021"
publish = false

[dependencies]
base64 = "0.13"
byteorder = "1"
bytes = "1"
futures = "0.3"
http = "0.2"
http-body = "0.4"
hyper = { version = "0.14", features = ["stream", "server", "http2"] }
pin-project = "1"
prost = "0.11"
prost-types = "0.11"
tokio = { version = "1", features = ["rt"] }
tonic = "0.8"
tower = "0.4"
