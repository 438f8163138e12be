[package]
name = "ssg_parent"
version = "0.1.0"
edition = "2021"
publish = false

[dependencies]
notify = "=6.1.1"
reqwest = { version = "=0.11.27", default-features = false }
colored = "=2.2.0"
futures = "=0.3.34"
tokio = { version = "=1.54.1", features = ["process", "rt", "sync"] }
portpicker = "=0.1.1"
live-server = "=0.11.1"
camino = "=1.2.6"
thiserror = "=1.0.69"
open = "=5.4.5"
