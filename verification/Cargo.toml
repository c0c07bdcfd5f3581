[package]
name = "git_clone_cli"
version = "0.1.0"
edition = "2021"
publish = false

[dependencies]
console = "0.15"
dialoguer = "0.11"
regex = "1"
reqwest = "0.12"
serde = { version = "1", features = ["derive"] }
serde_json = "1"
tokio = { version = "1", features = ["macros", "rt-multi-thread"] }

[dev-dependencies]
assert_fs = "1"
