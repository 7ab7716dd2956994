[package]
name = "da-spammer"
version = "0.1.0"
edition = "2021"
publish = false

[dependencies]
avail-rust-client = { version = "=0.5.1", default-features = false, features = ["native", "next"] }
clap = { version = "4", default-features = false, features = ["std", "derive", "help", "usage", "error-context"] }
ctrlc = "3"
num_cpus = "1"
rayon = "1"
sp-crypto-hashing = { version = "0.1.0", default-features = false, features = ["std"] }
tokio = { version = "1", default-features = false, features = ["macros", "rt-multi-thread", "sync", "time"] }
