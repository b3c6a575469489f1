[package]
name = "serialport"
version = "1.0.1"
edition = "2021"
publish = false

[dependencies]
libc = "0.2"
termios = "*"
ioctl-rs = "*"
nix = "*"
libudev = "*"
regex = "*"
winapi = "0.2"
kernel32-sys = "*"
advapi32-sys = "*"
mach = "*"
IOKit-sys = "*"
CoreFoundation-sys = "*"
