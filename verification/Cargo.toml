[package]
name = "global_lp_pool"
version = "0.1.0"
edition = "2021"
publish = false

[dependencies]
burn-tensor = { version = "*", default-features = false }
quote = "1"
proc-macro2 = "1"
