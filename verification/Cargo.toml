[package]
name = "codetracer_ruby_recorder"
version = "0.1.0"
edition = "2021"
publish = false

[dependencies]
runtime_tracing = "=0.10.0"
rb-sys = "=0.9.130"
num-traits = "=0.2.19"
