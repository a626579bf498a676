[package]
name = "modal_editor"
version = "0.1.0"
edition = "2021"

[dependencies]
gag = "=1.0.0"
ncurses = "=5.99.0"
