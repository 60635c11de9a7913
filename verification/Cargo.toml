[package]
name = "rmk"
version = "0.1.0"
edition = "2021"
publish = false

[dependencies]
cobs = { version = "=0.5.1", default-features = false }
postcard = { version = "=1.1.3", default-features = false, features = ["alloc"] }
serde = { version = "=1.0.229", default-features = false, features = ["derive", "alloc"] }
heapless = "=0.9.3"
embassy-sync = "=0.8.0"
embassy-futures = "=0.1.2"
embedded-io-async = "=0.7.0"
log = "=0.4.35"
thiserror = "=2.0.21"
trouble-host = "=0.8.0"
embassy-time = "=0.5.1"
embedded-storage = "=0.3.2"
embedded-storage-async = "=0.4.2"
embedded-hal = "=1.0.0"
embedded-hal-async = "=1.0.0"
