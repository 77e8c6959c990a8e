[package]
name = "rstml_component"
version = "0.1.0"
edition = "2021"
publish = false

[dependencies]
bytes = "*"
ammonia = "*"
rstml = "*"
syn = { version = "*", features = ["full"] }
quote = "*"
proc-macro2 = "*"
proc-macro2-diagnostics = "*"
axum = "*"
axum-extra = { version = "*", features = ["typed-header"] }
