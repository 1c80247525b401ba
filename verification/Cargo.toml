[package]
name = "rustdoc_text"
version = "0.1.0"
edition = "2021"
publish = false

[dependencies]
anyhow = "=1.0.104"
clap = { version = "=4.6.7", features = ["derive"] }
htmd = "=0.2.2"
html5ever = "=0.31.0"
markup5ever_rcdom = "=0.5.3-unofficial"
reqwest = "=0.13.5"
rmcp = { version = "=3.7.0", features = ["server", "transport-io", "macros"] }
schemars = "=1.2.3"
scraper = "=0.29.0"
serde = { version = "=1.0.229", features = ["derive"] }
termimad = "=0.35.5"
tokio = { version = "=1.54.1", features = ["macros", "rt-multi-thread", "io-std"] }
tracing = "=0.1.44"
tracing-subscriber = { version = "=0.3.23", features = ["env-filter"] }
urlencoding = "=2.1.3"
