[package]
name = "kubedash"
version = "0.1.0"
edition = "2021"
publish = false

[dependencies]
kube = "=3.1.0"
k8s-openapi = { version = "=0.27.1", features = ["latest"] }
tokio = { version = "=1.53.2", features = ["rt-multi-thread", "time"] }
chrono = { version = "=0.4.45", default-features = false, features = ["clock", "std"] }
serde_json = "=1.0.151"
eframe = { version = "=0.36.2", default-features = false, features = ["glow", "x11", "default_fonts"] }
egui = "=0.36.2"
egui_extras = "=0.36.2"
