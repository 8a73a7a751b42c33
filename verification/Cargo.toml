[package]
name = "footage"
version = "0.1.0"
edition = "2021"
publish = false

[dependencies]
itertools = "=0.15.0"
gettext-rs = { version = "=0.8.0", features = ["gettext-system"] }
async-channel = "=2.5.0"
derivative = "=2.2.0"
fraction = "=0.17.0"
log = "=0.4.35"
once_cell = "=1.21.4"
ordered-float = "=5.5.1"
pretty_env_logger = "=0.5.0"
thiserror = "=2.0.21"
url = "=2.5.8"
