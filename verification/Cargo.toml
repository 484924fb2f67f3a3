[package]
name = "v8js"
version = "0.1.0"
edition = "2021"
publish = false

[dependencies]
ext-php-rs = "0.10"
v8 = "0.60"
