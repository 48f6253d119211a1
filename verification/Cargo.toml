[package]
name = "mel_dl"
version = "0.1.0"
edition = "2021"
publish = false

[dependencies]
regex = "=1.13.1"
serde = { version = "=1.0.229", features = ["derive"] }
serde_json = "=1.0.154"
clap = "=2.34.0"
thirtyfour = "=0.23.2"
thirtyfour_query = "=0.6.1"
stringmatch = "=0.3.3"
tokio = { version = "=1.54.1", features = ["full"] }
async-trait = "=0.1.92"
futures = "=0.3.34"
