[package]
name = "rat_salsa2"
version = "0.20.1"
edition = "2021"
publish = false

[dependencies]
crossbeam = "=0.8.5"
crossterm = "=0.29.0"
ratatui = "=0.30.2"
rat-widget = "=3.2.1"
