[package]
name = "grsql"
version = "0.1.0"
edition = "2021"
publish = false

[dependencies]
diesel = { version = "*", features = ["sqlite"] }
dotenv = "*"
futures-util = "*"
serde = { version = "*", features = ["derive"] }
streamer = "*"
tokio = { version = "*", features = ["macros", "rt-multi-thread"] }
tonic = "*"
