[package]
name = "blaze_ftc_quickstart"
version = "0.1.0"
edition = "2021"
publish = false

[dependencies]
jni = "0.21"
log = "0.4"
