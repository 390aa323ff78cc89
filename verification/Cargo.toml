[package]
name = "formica"
version = "0.1.0"
edition = "2021"
publish = false

[dependencies]
crossbeam-channel = "0.5"
ctrlc = "3"
env_logger = "0.11"
exitcode = "1"
log = "0.4"
walkdir = "2"
