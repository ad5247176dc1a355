[package]
name = "si7021_t_rh"
version = "0.1.0"
edition = "2021"
publish = false

[dependencies]
embedded-hal = "1"
