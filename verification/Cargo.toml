[package]
name = "diesel_async_logger"
version = "0.1.0"
edition = "2021"
publish = false

[dependencies]
async-trait = "*"
diesel = "*"
diesel-async = "0.4"
futures-util = "*"
log = "*"
