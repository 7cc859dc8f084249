[package]
name = "md_wr"
version = "0.1.0"
edition = "2021"
publish = false

[dependencies]
gio = "*"
gtk4 = "*"
libadwaita = "*"
webkit6 = "*"
