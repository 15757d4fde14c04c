[package]
name = "ncoxide"
version = "0.1.0"
edition = "2021"
publish = false

[dependencies]
clap = { version = "*", features = ["derive"] }
crossterm = "*"
dirs = "*"
fern = "*"
image = { version = "*", default-features = false, features = ["png", "jpeg", "gif", "webp", "bmp", "ico", "tiff", "qoi"] }
jiff = "*"
libc = "*"
log = "*"
memchr = "*"
nucleo-matcher = "*"
ratatui = "*"
ratatui-image = "*"
regex = "*"
serde = { version = "*", features = ["derive"] }
syntect = { version = "*", default-features = false, features = ["default-fancy"] }
thiserror = "*"
toml = "*"
walkdir = "*"
