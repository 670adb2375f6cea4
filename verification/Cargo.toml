[package]
name = "cosmic-kernel"
version = "0.0.1"
edition = "2021"
publish = false

[dependencies]
lazy_static = { version = "=1.5.1", features = ["spin_no_std"] }
limine = "=0.5.0"
linked_list_allocator = "=0.10.6"
spin = "=0.9.9"
x86_64 = { version = "=0.15.5", default-features = false, features = ["instructions"] }
