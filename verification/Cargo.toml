[package]
name = "bpaf_unsynn"
version = "0.1.0"
edition = "2021"
publish = false

[dependencies]
proc-macro2 = "1"
quote = "1"
unsynn = "*"

[dev-dependencies]
bpaf = { version = "0.9", features = ["autocomplete"] }
