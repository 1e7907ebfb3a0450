[package]
name = "rppal"
version = "0.17.0"
edition = "2021"
publish = false

[dependencies]
libc = "0.2"
embedded-hal = "1.0.0"
embedded-hal-nb = "1.0.0"
nb = "1.1"
spin_sleep = "1.1"
void = "1.0"
