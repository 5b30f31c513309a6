[package]
name = "power_poller"
version = "0.1.0"
edition = "2021"
publish = false

[dependencies]
modbus = "*"
dotenv = "*"
