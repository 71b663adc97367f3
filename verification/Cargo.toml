[package]
name = "graplsub"
version = "0.1.0"
edition = "2021"
publish = false

[dependencies]
envy = "0.4"
format_serde_error = "0.3"
hex = "0.4"
md5 = "0.7"
rand = "0.9"
reqwest = "0.12"
serde = { version = "1", features = ["derive"] }
serde_json = "1"
thiserror = "2"
tokio = { version = "1", features = ["macros", "rt-multi-thread"] }
