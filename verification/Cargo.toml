[package]
name = "process_remote"
version = "0.1.0"
edition = "2021"
publish = false

[dependencies]
bytemuck = { version = "1", features = ["extern_crate_alloc"] }
lldb = "*"
tempfile = "3"
thiserror = "1"
