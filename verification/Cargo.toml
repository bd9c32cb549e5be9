[package]
name = "master_duel_translayer"
version = "0.1.0"
edition = "2021"
publish = false

[dependencies]
anyhow = "=1.0.104"
eframe = "=0.16.0"
leptonica-sys = "=0.4.9"
sysinfo = "=0.29.11"
tesseract-sys = "=0.6.3"
winapi = { version = "=0.3.9", features = ["dwmapi", "handleapi", "minwindef", "processthreadsapi", "windef", "wingdi", "winnt", "winuser"] }
