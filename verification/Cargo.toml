[package]
name = "being32"
version = "1.3.3"
edition = "2021"
publish = false
