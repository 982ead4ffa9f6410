[package]
name = "linc"
version = "0.1.0"
edition = "2021"
publish = false

[dependencies]
actix-web = { version = "3", default-features = false }
failure = "0.1"
local_ipaddress = "0.1"
log = "0.4"
port_check = "0.1"
structopt = "0.3"
yansi = "0.5"
