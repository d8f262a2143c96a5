[package]
name = "camera_session"
version = "0.1.0"
edition = "2021"
publish = false

[dependencies]
anyhow = "=1.0.104"
log = "=0.4.34"
onvif-cam-rs = "=0.1.39"
pretty_env_logger = "=0.5.0"
rtsp-rtp-rs = "=0.1.35"
sdl2 = "=0.38.0"
tokio = { version = "=1.54.1", features = ["macros", "rt-multi-thread"] }

[dev-dependencies]
openh264 = "=0.4.4"
