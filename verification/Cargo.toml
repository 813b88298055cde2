[package]
name = "rog_aura_terminal"
version = "0.1.0"
edition = "2021"
publish = false

[dependencies]
int-enum = "1"
log = "0.4"
ringbuffer = "0.15"
tinyvec = "1"
usb-device = "0.3"
usbd-hid = "0.8"
