[package]
name = "hibiki_audio"
version = "0.1.0"
edition = "2021"
publish = false

[dependencies]
anyhow = "1"
rubato = "0.15"
symphonia = "0.5"
