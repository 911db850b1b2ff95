[package]
name = "logstore"
version = "0.1.0"
edition = "2021"
publish = false

[dependencies]
sqlite3 = "*"
fs-err = "*"
log = "*"
env_logger = "*"
iron = "*"
router = "*"
