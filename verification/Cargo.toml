[package]
name = "fitr"
version = "0.1.0"
edition = "2021"
publish = false

[dependencies]
geo-types = "=0.2.2"
getopts = "=0.2.24"
gpx = "=0.6.0"
itertools = "=0.8.2"
log = "=0.4.34"
simplelog = "=0.5.3"
termion = "=1.5.6"
tui = "=0.5.1"
