[package]
name = "pdf_perm"
version = "0.1.0"
edition = "2021"
publish = false

[dependencies]
lopdf = "*"
log = "*"
env_logger = "*"
anyhow = "*"
