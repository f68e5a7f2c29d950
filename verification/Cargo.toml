[package]
name = "cpal_host"
version = "0.1.0"
edition = "2021"
publish = false

[dependencies]
pulseaudio = "=0.3.2"
futures = "=0.3.34"
intmap = "2"
