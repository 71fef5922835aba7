[package]
name = "spike"
version = "0.1.0"
edition = "2021"
publish = false

[dependencies]
bitvec = "1"
anyhow = "1"
log = "0.4"
libc = "0.2"
gpio = "0.4"
termios = "0.3"
ioctl-rs = "0.2"
timeout-readwrite = "0.3"
evdev = "0.12"
ctrlc = "3"
stderrlog = "0.6"
