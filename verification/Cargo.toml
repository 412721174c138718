[package]
name = "fuzz_core"
version = "0.1.0"
edition = "2021"
publish = false

[dependencies]
hashbrown = { version = "0.14", features = ["serde"] }
libafl_bolts = { version = "0.13", default-features = false, features = ["alloc"] }
serde = { version = "1", features = ["derive"] }
serde_json = "1"
tuple_list = "0.1"
