[package]
name = "rust_sc2"
version = "0.1.0"
edition = "2021"
publish = false

[dependencies]
indexmap = "=1.9.3"
rustc-hash = "=1.1.0"
ndarray = "=0.15.6"
num-traits = "=0.2.19"
num-derive = "=0.3.3"
sc2-proto = "=0.1.8"
protobuf = "=2.28.0"
tungstenite = "=0.30.0"
url = "=2.5.8"
dirs = "=7.0.0"
regex = "=1.13.1"
rand = "=0.8.8"
log = "=0.4.35"
lazy_static = "=1.5.1"
itertools = "=0.15.0"
parking_lot = "=0.13.0"
maplit = "=1.0.2"
