[package]
name = "shio"
version = "0.1.0"
edition = "2021"
publish = false

[dependencies]
regex = "=1.13.1"
num_cpus = "=1.17.0"
hyper = "=0.11.27"
futures = "=0.1.31"
tokio-core = "=0.1.18"
net2 = "=0.2.39"
