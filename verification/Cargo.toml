[package]
name = "quadpipe"
version = "0.1.0"
edition = "2021"
publish = false

[dependencies]
anyhow = "=1.0.104"
clap = { version = "=4.6.7", features = ["derive", "env"] }
clap-verbosity = "*"
env_logger = "=0.11.11"
glob = "=0.3.4"
log = "=0.4.34"
rayon = "=1.12.0"
regex = "=1.13.1"
reqwest = { version = "=0.13.5", features = ["blocking"] }
serde_json = "=1.0.154"
serde_yaml = "=0.9.34"
sophia = { version = "=0.10.0", features = ["jsonld", "xml", "sparql", "file_url", "http_client"] }
