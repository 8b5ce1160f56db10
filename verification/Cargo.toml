[package]
name = "hello_world"
version = "0.1.0"
edition = "2021"
publish = false

[dependencies]
ink_lang = "=3.4.0"
ink_prelude = "=3.4.0"
stylus = "*"
