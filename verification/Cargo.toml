[package]
name = "variation"
version = "0.1.0"
edition = "2021"

[dependencies]
heck = "=0.3.3"
proc-macro2 = "=1.0.107"
quote = "=1.0.47"
syn = "=2.0.119"
unicode-ident = "=1.0.27"
