[package]
name = "nd_engine"
version = "0.1.0"
edition = "2021"
publish = false

[dependencies]
clap = { version = "4", features = ["derive"] }
crossbeam = "0.8"
dlopen2 = "*"
fxhash = "0.2"
glium = "*"
godot = "*"
ipc-channel = "*"
rayon = "1"
serde = { version = "1", features = ["derive"] }
serde_json = "1"
