[package]
name = "circumvention_chronicles"
version = "0.1.0"
edition = "2021"
publish = false

[dependencies]
rand = "0.4"
open = "1"
futures = "0.1"
hyper = "0.11"
reqwest = { version = "0.9", default-features = false }
find_folder = "0.3"
conrod = { version = "0.58", features = ["piston"] }
