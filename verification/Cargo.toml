[package]
name = "rag_pipeline"
version = "0.1.0"
edition = "2021"
publish = false

[dependencies]
lopdf = "*"
reqwest = { version = "*", default-features = false, features = ["json"] }
serde = { version = "*", features = ["derive"] }
serde_json = "*"
tokio = { version = "*", features = ["rt-multi-thread", "macros"] }
