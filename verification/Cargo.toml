[package]
name = "auction_house"
version = "0.1.0"
edition = "2021"
publish = false

[dependencies]
fadroma = { version = "=0.8.8", features = ["scrt", "vk"] }
# fadroma re-exports this crate as `cosmwasm_std`. It is held to the release
# that fadroma 0.8.8 compiles against: the next one adds a field that
# fadroma does not set.
secret-cosmwasm-std = { version = "=1.1.10", default-features = false }
serde = { version = "=1.0.229", features = ["derive"] }
