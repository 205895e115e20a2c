[package]
name = "mediadecode"
version = "0.1.0"
edition = "2021"
publish = false

[dependencies]
ffmpeg-next = "=7.1.0"
mediatime = "=0.5.1"
thiserror = "=2.0.21"
