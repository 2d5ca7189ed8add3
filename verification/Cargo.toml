[package]
name = "prefix_by_date"
version = "0.1.0"
edition = "2021"
publish = false

[dependencies]
regex = "=1.13.1"
chrono = "=0.4.45"
toml = "=0.8.23"
log = "=0.4.35"
clap = { version = "=4.6.7", features = ["derive"] }
clap-verbosity-flag = "=2.2.3"
env_logger = "=0.11.11"
systemd-journal-logger = "=2.2.2"
xdg = "=2.5.2"
dialoguer = { version = "=0.11.0", features = ["fuzzy-select"] }
indicatif = "=0.18.6"
indicatif-log-bridge = "=0.2.3"
atty = "=0.2.14"
diff = "=0.1.13"
