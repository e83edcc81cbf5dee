[package]
name = "ion-shell"
version = "1.0.0"
edition = "2021"
publish = false

[dependencies]
app_dirs = "=1.2.1"
fnv = "=1.0.7"
smallvec = "=0.6.14"
