[package]
name = "unicorn"
version = "0.1.0"
edition = "2021"
publish = false

[dependencies]
whirlpool = "=0.11.0"
base64ct = "=1.8.3"
cranelift-codegen = "=0.135.5"
cranelift-frontend = "=0.135.5"
cranelift-module = "=0.135.5"
cranelift-object = "=0.135.5"
cranelift-native = "=0.135.5"
anyhow = "=1.0.104"
