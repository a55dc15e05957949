[package]
name = "ngx_tickle"
version = "0.1.0"
edition = "2021"
publish = false

[dependencies]
async-task = "4"
crossbeam-channel = "0.5"
nginx-sys = "*"
ngx = "*"
