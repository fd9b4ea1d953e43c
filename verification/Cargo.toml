[package]
name = "stardb_router"
version = "0.1.0"
edition = "2021"
publish = false

[dependencies]
pingora = "*"
pingora-core = "*"
pingora-proxy = "*"
async-trait = "*"
env_logger = "*"
log = "*"
