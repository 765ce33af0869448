[package]
name = "nettest"
version = "0.1.0"
edition = "2021"
publish = false

[dependencies]
base64 = "0.22"
hmac = "0.12"
sha2 = "0.10"
regex = "1"
openssl = "0.10"
uuid = { version = "1", features = ["v4"] }
bytes = "1"
log = "0.4"
anyhow = "1"
libc = "0.2"
nix = { version = "0.29", features = ["process", "fs", "user"] }
mio = { version = "1", features = ["os-poll", "net"] }
rustls = { version = "0.23", default-features = false, features = ["ring", "std", "tls12"] }
rustls-pemfile = "2"
tokio = { version = "1", features = ["net", "io-util", "rt-multi-thread", "macros", "sync", "time"] }
tokio-rustls = { version = "0.26", default-features = false, features = ["ring", "tls12"] }
tokio-tungstenite = "0.24"
futures = "0.3"
reqwest = { version = "0.12", default-features = false, features = ["json", "rustls-tls"] }
serde = { version = "1", features = ["derive"] }
serde_json = "1"
