[package]
name = "redditrip"
version = "0.1.0"
edition = "2021"
publish = false

[dependencies]
http = "=0.2.12"
hyper = { version = "=0.14.32", features = ["full"] }
hyper-tls = "=0.5.0"
tokio = { version = "=1.53.2", features = ["full"] }
bytes = "=1.12.1"
futures-util = "=0.3.34"
serde = { version = "=1.0.229", features = ["derive"] }
serde_json = "=1.0.151"
structopt = "=0.3.26"
time = { version = "=0.3.55", features = ["parsing", "formatting", "macros"] }
log = { version = "=0.4.34", features = ["std"] }
ansi_term = "=0.12.1"
atty = "=0.2.14"
