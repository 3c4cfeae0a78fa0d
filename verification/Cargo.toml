[package]
name = "hevc_parser"
version = "0.1.0"
edition = "2021"
publish = false

[dependencies]
anyhow = "1"
matroska-demuxer = "*"
regex = "1"
