[package]
name = "spotify_connect"
version = "0.1.0"
edition = "2021"
publish = false

[dependencies]
env_logger = "=0.11.11"
futures-util = "0.3"
http = "=1.5.0"
librespot = { version = "=0.8.0", default-features = false, features = ["rustls-tls-webpki-roots", "pulseaudio-backend"] }
librespot-protocol = "=0.8.0"
log = "0.4"
protobuf = "=3.7.2"
serde_json = "=1.0.154"
tokio = { version = "1", features = ["io-util", "macros", "net", "rt-multi-thread", "time"] }
# The build script of librespot-core compiles with this release only.
vergen = { version = "=9.0.6", default-features = false }
