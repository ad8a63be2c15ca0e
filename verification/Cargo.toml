[package]
name = "threebody"
version = "0.1.0"
edition = "2021"
publish = false

[dependencies]
gimli = "*"
iced-x86 = "*"
nix = { version = "*", features = ["ptrace", "process", "signal"] }
object = "*"
