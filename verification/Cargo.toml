[package]
name = "tauri_runtime_cef"
version = "0.1.0"
edition = "2021"
publish = false

[dependencies]
url = "2"
http = "1"
raw-window-handle = "0.6"
log = "0.4"
thiserror = "2"
tracing = "0.1"
x11-dl = "2"
cookie = "0.18"
softbuffer = { version = "0.4", default-features = false }
tao = "0.34"
tauri-runtime = "2"
tauri-utils = "2"
