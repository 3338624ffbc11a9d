[package]
name = "datafusion_sharp_native"
version = "0.1.0"
edition = "2021"
publish = false

[dependencies]
arrow-ipc = "=59.3.1"
arrow-schema = "=59.3.1"
chrono = "=0.4.45"
flatbuffers = "=25.12.19"
futures = "=0.3.34"
prost = "=0.14.4"
tokio = { version = "=1.54.1", features = ["rt-multi-thread"] }

[dev-dependencies]
arrow-array = "=59.3.1"
