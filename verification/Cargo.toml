[package]
name = "geoip_lookup"
version = "0.1.0"
edition = "2021"
publish = false

[dependencies]
gmod = "=16.0.2"
maxminddb = { version = "=0.21.0", features = ["mmap"] }
memmap2 = "=0.3.1"
thiserror = "=1.0.69"
