[package]
name = "emulated_camera"
version = "0.1.0"
edition = "2021"
publish = false

[dependencies]
clap = { version = "4", features = ["derive"] }
env_logger = "*"
libc = "0.2"
log = "0.4"
thiserror = "*"
vhost-user-backend = "*"
virtio-media = "*"
vm-memory = { version = "*", features = ["backend-mmap", "backend-atomic"] }
