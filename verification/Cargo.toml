[package]
name = "sitegen"
version = "0.1.0"
edition = "2021"
publish = false

[dependencies]
pulldown-cmark = "*"
scraper = "*"
minify = "*"
chrono = "*"
askama = "*"
glob = "*"
fs_extra = "*"
env_logger = "*"
log = "*"
