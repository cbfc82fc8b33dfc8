[package]
name = "odbc_api"
version = "0.1.0"
edition = "2021"
publish = false

[dependencies]
anyhow = "1"
csv = "1"
log = "0.4"
odbc-sys = "*"
stderrlog = "*"
structopt = "0.3"
widestring = "*"
