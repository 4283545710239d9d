[package]
name = "bc_ur"
version = "0.1.0"
edition = "2021"

[dependencies]
ur = "*"
dcbor = "*"
thiserror = "*"
