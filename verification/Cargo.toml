[package]
name = "task_scope"
version = "0.1.0"
edition = "2021"
publish = false

[dependencies]
stack_ptr = "*"
