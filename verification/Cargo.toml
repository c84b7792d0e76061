[package]
name = "esp32c3_embassy_picoserve"
version = "0.1.0"
edition = "2021"
publish = false

[dependencies]
heapless = "0.8"
time = "0.3"
embassy-executor = "*"
embassy-net = { version = "*", features = ["proto-ipv4", "medium-ethernet", "tcp", "dns", "dhcpv4"] }
embassy-time = "*"
esp-alloc = "*"
esp-bootloader-esp-idf = "*"
esp-hal = "*"
esp-hal-embassy = "*"
esp-wifi = "*"
picoserve = { version = "*", features = ["embassy"] }
rand_core = "*"
reqwless = "*"
rtt-target = "*"
static_cell = "*"
