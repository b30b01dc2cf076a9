[package]
name = "snapshot_sync"
version = "0.1.0"
edition = "2021"
publish = false

[dependencies]
cfx-types = "*"
rlp = "*"
rlp-derive = "*"
