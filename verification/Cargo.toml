[package]
name = "jdw_osc_lib"
version = "0.1.0"
edition = "2021"
publish = false

[dependencies]
bigdecimal = "=0.4.11"
log = "=0.4.34"
rosc = "=0.11.4"
