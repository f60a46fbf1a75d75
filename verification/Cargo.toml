[package]
name = "yaffe"
version = "0.1.0"
edition = "2021"
publish = false

[dependencies]
glutin = "0.29"
speedy2d = "1"
sqlite = "0.30"
spmc = "0.3"
dlopen = "0.1"
dlopen_derive = "0.1"
reqwest = { version = "0.11", default-features = false, features = ["blocking"] }
serde = { version = "1", features = ["derive"] }
serde_json = "1"
chrono = "0.4"
libc = "0.2"
takeable-option = "0.5"
winapi = { version = "0.3", features = ["winuser", "xinput", "winerror", "minwindef", "winnt", "libloaderapi"] }
