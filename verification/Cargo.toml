[package]
name = "nzbfast_serve"
version = "0.1.0"
edition = "2021"
publish = false

[dependencies]
anyhow = "1"
libc = "0.2"
libmimalloc-sys = { version = "0.1", features = ["extended"] }
notify = "8"
serde = { version = "1", features = ["derive"] }
serde_json = "1"
sha2 = "0.10"
tiny_http = "0.12"
tokio = { version = "1", features = ["rt-multi-thread", "time", "sync", "macros"] }
