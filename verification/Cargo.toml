[package]
name = "git_prompt"
version = "0.1.0"
edition = "2021"
publish = false

[dependencies]
anyhow = "=1.0.104"
env_logger = "=0.11.11"
gix = "=0.70.0"
kstring = "=2.0.2"
log = "=0.4.34"

[dev-dependencies]
tempfile = "=3.27.0"
