[package]
name = "virtio_fs"
version = "0.1.0"
edition = "2021"
publish = false

[dependencies]
epoll = "=4.4.0"
libc = "=0.2.191"
log = "=0.4.35"
vhost = { version = "=0.6.1", features = ["vhost-user-master", "vhost-user-slave"] }
vm-memory = { version = "0.10", features = ["backend-mmap"] }
vmm-sys-util = "0.11"
