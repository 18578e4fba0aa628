[package]
name = "entity_assembly"
version = "0.1.0"
edition = "2021"
publish = false

[dependencies]
anyhow = "1"
coffee = { version = "0.4", features = ["opengl"] }
kira = "0.5"
serde = { version = "1", features = ["derive"] }
serde_json = "1"
specs = "0.16"
thiserror = "1"
