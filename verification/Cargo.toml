[package]
name = "udpcluster"
version = "0.1.0"
edition = "2021"
publish = false

[dependencies]
nix = "0.23"
num_cpus = "1"
clap = "2"
crossbeam-channel = "0.5"
ctrlc = "3"
libc = "0.2"
