[package]
name = "scylladb-drivers-benchmarker"
version = "0.1.0"
edition = "2021"
publish = false

[dependencies]
shell-words = "1"
sqlite = "*"
serde = { version = "1", features = ["derive"] }
serde_json = "1"
serde_yml = "*"
humantime-serde = "1"
clap = { version = "4", features = ["derive"] }
log = "0.4"
env_logger = "*"
fs-err = "*"
home = "*"
html-escape = "*"
regex = "1"
plotters = { version = "*", default-features = false, features = ["svg_backend", "bitmap_backend", "bitmap_encoder", "line_series", "full_palette", "all_elements", "all_series"] }
plotters-backend = "*"
image = { version = "*", default-features = false, features = ["png"] }
tempfile = "3"
uuid = { version = "1", features = ["v4"] }
wait-timeout = "*"
subprocess = "*"
justerror = "*"
thiserror = "*"

[dev-dependencies]
