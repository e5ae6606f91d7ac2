[package]
name = "bencher"
version = "0.1.0"
edition = "2021"
publish = false

[dependencies]
hex = "*"
url = "*"
hostname = "*"
rand = "*"
reqwest = { version = "*", default-features = false, features = ["json"] }
tokio = { version = "*", features = ["rt", "rt-multi-thread", "time", "sync"] }
futures = "*"
crossbeam-channel = "*"
rayon = "*"
serde = { version = "*", features = ["derive"] }
serde_derive = "*"
serde_json = "*"
serde_yaml = "*"
clap = { version = "*", features = ["cargo"] }
log = "*"
num_cpus = "*"
raw-cpuid = "*"
stopwatch = "*"
chrono = "*"
ocl-core = "*"

[dev-dependencies]
shabal = "*"
