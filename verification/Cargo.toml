[package]
name = "php_sasso"
version = "0.1.0"
edition = "2021"
publish = false

[dependencies]
sasso = "*"
ext-php-rs = "*"
