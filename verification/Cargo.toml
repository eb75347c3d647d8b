[package]
name = "r2d2_beanstalkd"
version = "0.1.0"
edition = "2021"
publish = false

[dependencies]
beanstalkc = "*"
r2d2 = "*"
