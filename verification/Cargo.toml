[package]
name = "binspect"
version = "0.1.0"
edition = "2021"
publish = false

[dependencies]
object = "*"
symbolic = { version = "*", default-features = false, features = ["demangle"] }
uuid = "*"
bitflags = "*"
clap = { version = "*", features = ["derive"] }

[dev-dependencies]
object = { version = "*", features = ["write"] }
