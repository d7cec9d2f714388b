[package]
name = "audio_capture"
version = "0.1.0"
edition = "2021"
publish = false

[dependencies]
gstreamer = "0.23"
gstreamer-app = "0.23"
once_cell = "1"
webrtc = "0.12"
