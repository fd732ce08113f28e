[package]
name = "vm_factory"
version = "0.1.0"
edition = "2021"
publish = false

[dependencies]
pi_atom = "=0.8.0"
pi_lfstack = "=0.1.5"
