[package]
name = "linkunwrap"
version = "0.1.0"
edition = "2021"
publish = false

[dependencies]
regex = "1"
url = "2"
log = "0.4"
glob = "0.3"
ctrlc = "3"
lazy_static = "1"
clipboard-win = "*"
