[package]
name = "log3_lib"
version = "0.1.0"
edition = "2021"
publish = false

[dependencies]
clap = { version = "4", default-features = false, features = ["derive", "std", "help", "usage", "error-context"] }
ethers-core = "2.0"
ethers-etherscan = "2.0"
ethers-providers = { version = "2.0", default-features = false }
ethers-solc = "2.0"
eyre = "0.6"
lambda_http = "*"
regex = "1"
serde = { version = "1", features = ["derive"] }
serde_json = "1"
serde_repr = "0.1"
tokio = { version = "1", features = ["macros", "rt-multi-thread"] }
tracing = "0.1"
tracing-subscriber = { version = "0.3", default-features = false, features = ["fmt"] }
