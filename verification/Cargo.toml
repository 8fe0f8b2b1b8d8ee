[package]
name = "cccp"
version = "0.1.0"
edition = "2021"
publish = false

[dependencies]
anyhow = "=1.0.104"
clap = "=2.34.0"
crc64fast = "=1.1.0"
dbus = "=0.9.12"
dbus-udisks2 = "=0.3.0"
indicatif = "=0.15.0"
libc = "=0.2.191"
nc = "=0.9.8"
nix = "=0.26.4"
structopt = "=0.3.26"
tempfile = "=3.27.0"
udev = "=0.9.3"
walkdir = "=2.5.0"
