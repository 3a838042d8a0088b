[package]
name = "apw"
version = "2.0.0"
edition = "2021"
publish = false

[dependencies]
base64 = "0.22"
chrono = "0.4"
clap = { version = "4", features = ["derive"] }
futures-util = "0.3"
hex = "0.4"
libc = "0.2"
num-bigint = "0.4"
num-traits = "0.2"
openssl = "0.10"
rand = "0.8"
rpassword = "7"
serde = { version = "1", features = ["derive"] }
serde_json = "1"
sha2 = "0.10"
subtle = "2"
tokio = { version = "1", features = ["full"] }
tokio-tungstenite = "0.24"
url = "2"
