[package]
name = "depthai"
version = "0.1.0"
edition = "2021"
publish = false

[dependencies]
bytemuck = { version = "1", features = ["derive"] }
getifaddrs = "*"
memchr = "2"
rmpv = "1"
serde = { version = "1", features = ["derive"] }
serde_repr = "0.1"
tokio = { version = "1", features = ["full"] }
tokio-stream = "0.1"
tokio-tar = "*"
xz = "*"
