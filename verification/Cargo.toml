[package]
name = "gstreamer_iced"
version = "0.1.0"
edition = "2021"
publish = false

[dependencies]
anyhow = "=1.0.104"
futures = "=0.3.34"
futures-time = "=3.1.0"
gstreamer = "=0.22.8"
gstreamer-app = "=0.22.6"
smol = "=2.0.2"
thiserror = "=1.0.69"
url = "=2.5.8"
