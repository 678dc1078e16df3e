[package]
name = "fyg"
version = "0.1.0"
edition = "2021"
publish = false

[dependencies]
anyhow = "=1.0.104"
clap = { version = "=4.6.7", features = ["derive"] }
directories = "=6.0.0"
humansize = "=2.1.3"
octocrab = "=0.47.1"
owo-colors = "=4.4.0"
reqwest = "=0.13.5"
serde = { version = "=1.0.229", features = ["derive"] }
tokio = { version = "=1.53.2", features = ["macros", "rt-multi-thread"] }
toml = "=1.1.7"
zip = "=8.6.0"
