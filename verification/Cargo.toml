[package]
name = "transit_rt"
version = "0.1.0"
edition = "2021"
publish = false

[dependencies]
chrono = "=0.4.45"
chrono-tz = "=0.10.4"
csv = "=1.4.0"
zip = { version = "=8.6.0", default-features = false, features = ["deflate"] }
gtfs-rt = "=0.2.1"
prost = "=0.8.0"
serde = { version = "*", features = ["derive"] }
reqwest = { version = "*", default-features = false, features = ["json"] }
tide = "*"
async-std = { version = "*", features = ["attributes"] }
futures = "*"
