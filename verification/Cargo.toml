[package]
name = "distrakt"
version = "0.1.0"
edition = "2021"
publish = false

[dependencies]
chrono = "=0.4.45"
rand = "=0.7.3"
serenity = { version = "=0.6.4", default-features = false, features = ["default_native_tls"] }
sled = "=0.24.1"
postgres = "=0.19.14"
trakt = "=0.0.2"
diesel = { version = "=1.4.8", features = ["sqlite", "chrono"] }
typemap = "=0.3.3"
time = "=0.1.45"
serde = "=1.0.229"
serde_derive = "=1.0.229"
serde_json = "=1.0.154"
serde_cbor = "=0.10.2"
