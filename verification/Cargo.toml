[package]
name = "rigid_rotation"
version = "0.1.0"
edition = "2021"
publish = false

[dependencies]
alga = "0.5"
num = { version = "0.1", default-features = false }
quickcheck = { version = "0.4", default-features = false }
rand = "0.3"
