[package]
name = "voicecap"
version = "0.1.0"
edition = "2021"
publish = false

[dependencies]
rubato = "=0.16.2"
hound = "=3.5.1"
cpal = "=0.18.2"
