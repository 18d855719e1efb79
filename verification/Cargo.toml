[package]
name = "itext_rs"
version = "0.1.0"
edition = "2021"
publish = false

[dependencies]
jni = "=0.21.1"
convert_case = "=0.6.0"
