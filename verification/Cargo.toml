[package]
name = "qubit-command"
version = "0.1.0"
edition = "2021"
publish = false

[dependencies]
libc = "0.2"
log = "0.4"
process-wrap = { version = "9", features = ["std"] }
qubit-clock = "0.13"
qubit-redact = "0.9"
same-file = "1"
