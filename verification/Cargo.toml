[package]
name = "clumsy_loader"
version = "0.1.0"
edition = "2021"
publish = false

[dependencies]
color-eyre = "*"
futures-util = "*"
indicatif = "*"
ratatui = "*"
reqwest = { version = "*", default-features = false, features = ["json", "stream"] }
serde = { version = "*", features = ["derive"] }
tokio = { version = "*", features = ["macros", "rt-multi-thread", "io-std", "io-util", "fs"] }
