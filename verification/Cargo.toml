[package]
name = "copy_dvd"
version = "0.1.0"
edition = "2021"
publish = false

[dependencies]
semver = "=1.0.28"
regex = "=1.13.1"
directories = "=5.0.1"
dirs = "=5.0.1"
num_cpus = "=1.17.0"
serde = { version = "=1.0.229", features = ["derive"] }
serde_json = "=1.0.154"
clap = { version = "=4.6.7", features = ["derive"] }
tokio = { version = "=1.54.1", features = ["rt-multi-thread", "macros", "process", "sync", "fs", "time", "io-util"] }
which = "=6.0.3"
notify-rust = "=4.18.2"
zip = { version = "2", default-features = false, features = ["deflate"] }
sha2 = "0.10"
chrono = { version = "0.4", default-features = false, features = ["alloc", "std"] }

[dev-dependencies]
tempfile = "=3.27.0"
