[package]
name = "savegame_backup"
version = "0.1.0"
edition = "2021"
publish = false

[dependencies]
chrono = "0.4"
clap = "2"
env_logger = "0.7"
log = "0.4"
notify = "4"

[dev-dependencies]
regex = "1"
