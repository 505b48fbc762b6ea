[package]
name = "star_adventurer"
version = "0.1.0"
edition = "2021"
publish = false

[dependencies]
ascom-alpaca = { version = "=1.0.0-beta.10", features = ["server", "telescope"] }
tokio = { version = "1", features = ["full"] }
chrono = "0.4"
confy = "*"
serde = { version = "1", features = ["derive"] }
serialport = { version = "4", default-features = false }
tracing = "0.1"
tracing-subscriber = "0.3"
eyre = "0.6"
retry = "2"
spin_sleep = "1"
async-trait = "0.1"
log = "0.4"
polynomials = "0.2"
net-literals = "0.2"
