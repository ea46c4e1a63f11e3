[package]
name = "cipher_echo"
version = "0.1.0"
edition = "2021"
publish = false

[dependencies]
ctrlc = "*"
get_if_addrs = "*"
nix = { version = "*", features = ["socket", "net"] }
socket2 = "*"
tokio = { version = "*", features = ["net", "io-util", "rt-multi-thread", "macros"] }
