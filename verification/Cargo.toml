[package]
name = "wifi_supervisor"
version = "0.1.0"
edition = "2021"
publish = false

[dependencies]
defmt = "*"
embassy-executor = "*"
embassy-net = "*"
embassy-time = "*"
esp-alloc = "*"
esp-bootloader-esp-idf = "*"
esp-hal = "*"
esp-hal-embassy = "*"
esp-wifi = "*"
panic-rtt-target = "*"
rtt-target = "*"
static_cell = "*"
