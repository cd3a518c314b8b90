[package]
name = "host_snapshot"
version = "0.1.0"
edition = "2021"
publish = false

[dependencies]
battery = "0.7"
humansize = "1"
napi = "2"
napi-derive = "2"
nvml-wrapper = "0.7"
sysinfo = "0.28"
