[package]
name = "tokio_tungstenite"
version = "0.1.0"
edition = "2021"
publish = false

[dependencies]
tungstenite = "*"
tokio = { version = "*", features = ["io-util", "net", "rt", "macros"] }
futures = "0.1"
futures-util = { version = "0.3", features = ["sink"] }
tokio-io = "0.1"
log = "0.4"
pin-project = "*"
url = "2"
async_io_stream = "*"
ws_stream_wasm = "*"
