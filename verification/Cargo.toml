[package]
name = "mandrake"
version = "0.1.0"
edition = "2021"
publish = false

[dependencies]
base64 = "0.13"
byteorder = "1"
clap = { version = "3", features = ["derive"] }
clap-num = "1"
csv = "1"
hex = "0.4"
iced-x86 = { version = "1", default-features = false, features = ["std", "decoder", "nasm"] }
lazy_static = "1"
nix = "0.26"
serde = { version = "1", features = ["derive"] }
serde_json = "1"
serde-pickle = "1"
serde_yaml = "0.8"
simple-error = "0.2"
spawn-ptrace = "0.1"

[dev-dependencies]
regex = "1"
