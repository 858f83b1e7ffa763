[package]
name = "parity_common"
version = "0.1.0"
edition = "2021"
publish = false

[dependencies]
scrypt = { version = "=0.2.0", default-features = false }
libsecp256k1 = "=0.7.2"
aes = { version = "=0.7.5", features = ["ctr"] }
block-modes = "=0.8.1"
prometheus = { version = "=0.14.0", default-features = false }
parking_lot = "=0.13.0"
slog = "=2.8.2"
slog-async = "=2.8.0"
slog-json = "=2.6.1"
once_cell = "=1.21.4"
lazy_static = "=1.5.1"
log = "=0.4.35"
syn = { version = "=0.15.44", features = ["full"] }
quote = "=0.6.13"
proc-macro2 = "=0.4.30"
