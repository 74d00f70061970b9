[package]
name = "navigator"
version = "0.1.0"
edition = "2021"
publish = false

[dependencies]
url = { version = "2", features = ["serde"] }
uuid = { version = "1", features = ["v4", "serde"] }
chrono = { version = "0.4", default-features = false, features = ["std", "now", "serde"] }
html5ever = "0.27"
markup5ever_rcdom = "0.3"
anyhow = "1"
async-trait = "0.1"
serde = { version = "1", features = ["derive"] }
serde_json = "1"
tokio = { version = "1", features = ["rt-multi-thread", "macros", "sync"] }
tracing = "0.1"
tracing-subscriber = { version = "0.3", features = ["env-filter"] }
reqwest = { version = "0.12", default-features = false, features = ["rustls-tls"] }
sqlx = { version = "0.8", default-features = false, features = ["runtime-tokio", "sqlite"] }
winit = { version = "0.30", default-features = false, features = ["rwh_06", "x11"] }
wgpu = { version = "23", default-features = false, features = ["wgsl"] }
glyphon = "0.7"
