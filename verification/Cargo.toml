[package]
name = "gstplugins"
version = "0.1.0"
edition = "2021"
publish = false

[dependencies]
futures = "=0.3.34"
gl = "=0.14.0"
gstreamer = { version = "=0.25.4", features = ["v1_26"] }
gstreamer-app = { version = "=0.25.2", features = ["v1_20"] }
gstreamer-base = "=0.25.4"
gstreamer-editing-services = { version = "=0.25.4", features = ["v1_24"] }
gstreamer-gl = "=0.25.4"
gstreamer-video = "=0.25.4"
kstring = "=2.0.2"
once_cell = "=1.21.4"
parking_lot = "=0.12.5"
regex = "=1.13.1"
skia-safe = { version = "=0.156.0", features = ["gl"] }
tokio = { version = "=1.54.1", features = ["full"] }
tracing = "=0.1.44"
