[package]
name = "devices"
version = "0.1.0"
edition = "2021"
publish = false

[dependencies]
futures = "=0.3.34"
getopts = "=0.2.24"
libc = "=0.2.191"
vhost = { version = "=0.6.1", features = ["vhost-user-slave"] }
