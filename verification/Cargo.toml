[package]
name = "gridcrawl"
version = "0.1.0"
edition = "2021"
publish = false

[dependencies]
rand = "=0.7.3"
noise = "=0.6.0"
quicksilver = { version = "=0.3.22", default-features = false, features = ["fonts"] }
