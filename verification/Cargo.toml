[package]
name = "map_box_from"
version = "0.1.0"
edition = "2021"

[dependencies]
tap = "1"
