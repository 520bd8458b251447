[package]
name = "pinentry_wukong"
version = "0.1.0"
edition = "2021"
publish = false

[dependencies]
assuan = "=0.3.0"
clap = { version = "=4.6.7", features = ["derive"] }
clap_complete = "4"
clap-verbosity-flag = { version = "=3.0.4", features = ["tracing"] }
crossterm = "=0.29.0"
directories = "=6.0.0"
keyring = "=4.2.0"
libc = "=0.2.191"
log = "=0.4.35"
miette = "=7.6.0"
ratatui = "=0.30.2"
rpassword = "=7.5.4"
serde = { version = "=1.0.229", features = ["derive"] }
tokio = { version = "=1.54.1", features = ["macros", "rt"] }
toml = "=1.1.8"
tracing = "=0.1.44"
tracing-subscriber = { version = "=0.3.23", features = ["env-filter"] }
zeroize = { version = "=1.9.1", features = ["derive"] }
