[package]
name = "tier1_peerings"
version = "0.1.0"
edition = "2021"
publish = false

[dependencies]
bgpkit-broker = "*"
bgpkit-parser = "*"
clap = { version = "4", features = ["derive"] }
env_logger = "*"
ipnet = "2"
itertools = "*"
log = "0.4"
rayon = "1"
reqwest = { version = "*", features = ["blocking"] }
serde = { version = "1", features = ["derive"] }
serde_json = "1"
