[package]
name = "widget_tree"
version = "0.1.0"
edition = "2021"
publish = false

[dependencies]
smallvec = "=1.13.2"
vello = { version = "=0.2.1", default-features = false }
accesskit = "=0.16.3"
xilem_core = "=0.3.0"
