[package]
name = "tetanes"
version = "0.1.0"
edition = "2021"
publish = false

[dependencies]
android_logger = "*"
anyhow = "1"
egui = "*"
jni = "0.21"
log = "0.4"
ndk-context = "0.1"
winit = "0.30"
