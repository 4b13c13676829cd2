[package]
name = "vote_tally"
version = "0.1.0"
edition = "2021"
publish = false

[dependencies]
base64 = "0.13"
serde_json = "1"
structopt = "=0.3.26"
