[package]
name = "hashengine"
version = "0.1.0"
edition = "2021"
publish = false

[dependencies]
hex = "*"
rayon = "*"
actix-web = "*"
serde = { version = "*", features = ["derive"] }
serde_json = "*"
log = "*"
env_logger = "*"
num_cpus = "*"
once_cell = "*"
