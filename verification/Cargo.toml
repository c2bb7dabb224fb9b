[package]
name = "intro_chapter_adder"
version = "0.1.0"
edition = "2021"
publish = false

[dependencies]
anyhow = "1"
csv = "1"
ffmpeg4 = "*"
humantime = "2"
indicatif = "0.15"
mktemp = "0.4"
paw = "1"
rayon = "1"
serde = "1"
serde_derive = "1"
structopt = { version = "0.3", features = ["paw"] }
