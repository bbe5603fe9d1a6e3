[package]
name = "mfekglif"
version = "0.1.0"
edition = "2021"
publish = false

[dependencies]
xmltree = { version = "=0.12.0", features = ["attribute-sorted"] }
regex = "=1.13.1"
