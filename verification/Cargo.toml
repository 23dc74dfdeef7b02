[package]
name = "sigrok"
version = "0.4.0"
edition = "2021"
publish = false

[dependencies]
num-rational = { version = "0.4", default-features = false, features = ["std"] }
futures = "0.3"
glib = "0.10"
glib-sys = "0.10"
thiserror = "1"
displaydoc = "0.2"
