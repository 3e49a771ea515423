[package]
name = "lofi_player"
version = "0.1.0"
edition = "2021"
publish = false

[dependencies]
crossbeam-channel = "0.5"
dirs = "5"
native-dialog = "0.6"
rand = "0.8"
rodio = "0.17"
single-instance = "0.3"
