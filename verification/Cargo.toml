[package]
name = "dap_sampler"
version = "0.1.0"
edition = "2021"
publish = false

[dependencies]
gimli = "0.31"
egui = "0.31"
log = "0.4"
