[package]
name = "lazy_struct_diff"
version = "0.1.0"
edition = "2021"
publish = false

[dependencies]
smallvec = "1"
syn = "2"
quote = "1"
proc-macro2 = "1"
