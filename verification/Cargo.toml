[package]
name = "nu_plugin_audio"
version = "0.1.0"
edition = "2021"
publish = false

[dependencies]
unicode-width = "=0.2.3"
crossterm = "=0.29.0"
lofty = "=0.25.5"
nu-plugin = "=0.112.2"
nu-protocol = "=0.112.2"
