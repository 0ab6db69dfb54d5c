[package]
name = "ragb"
version = "0.1.0"
edition = "2021"
publish = false

[dependencies]
gdbstub = "*"
gdbstub_arch = "*"
tokio = { version = "1", features = ["sync"] }
sdl2 = "*"
gl = "*"
