[package]
name = "nodeagent"
version = "0.1.0"
edition = "2021"
publish = false

[dependencies]
iron = "=0.6.1"
persistent = "=0.4.0"
router = "=0.6.0"
serde_json = "1"
