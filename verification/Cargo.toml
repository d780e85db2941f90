[package]
name = "llmtrain_monitor"
version = "0.1.0"
edition = "2021"
publish = false

[dependencies]
regex = "1"
sysinfo = "0.29"
nvml-wrapper = "0.9"
clap = "2.34"
crossterm = "0.25"
tui = "0.19"
