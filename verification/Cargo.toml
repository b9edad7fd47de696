[package]
name = "enable_ansi_support"
version = "0.1.0"
edition = "2021"
publish = false

[dependencies]
winapi = { version = "0.3", default-features = false, features = ["consoleapi", "errhandlingapi", "fileapi", "handleapi", "winnt"] }
