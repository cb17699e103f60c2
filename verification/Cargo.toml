[package]
name = "fallible_containers"
version = "0.1.0"
edition = "2021"
publish = false
