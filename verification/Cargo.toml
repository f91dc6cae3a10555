[package]
name = "lyric_sync"
version = "0.1.0"
edition = "2021"
publish = false

[dependencies]
gtk4 = "0.6"
glib-macros = "0.17"
libc = "0.2"
tracing = "0.1"
