[package]
name = "vanity_search"
version = "0.1.0"
edition = "2021"
publish = false

[dependencies]
bitcoin = "0.27"
rand = "0.8"
rayon = "1"
