[package]
name = "hibernate_task"
version = "0.1.0"
edition = "2021"
publish = false

[dependencies]
eframe = "0.17"
