[package]
name = "rp2040_badger_w"
version = "0.1.0"
edition = "2021"
publish = false

[dependencies]
cyw43 = "=0.6.0"
cyw43-firmware = { version = "=0.1.0", features = ["wifi"] }
cyw43-pio = "=0.9.0"
embassy-executor = { version = "=0.9.1", features = ["arch-spin", "executor-thread"] }
embassy-futures = "=0.1.2"
embassy-net = { version = "=0.8.0", features = ["tcp", "udp", "dhcpv4", "dns", "medium-ethernet", "proto-ipv4"] }
embassy-rp = { version = "=0.9.0", features = ["rp2040", "time-driver", "critical-section-impl"] }
embassy-sync = "=0.7.2"
embassy-time = "=0.5.1"
embedded-alloc = "=0.5.1"
embedded-graphics = "=0.8.2"
jiff = { version = "=0.2.39", default-features = false, features = ["alloc", "tzdb-bundle-always"] }
panic-probe = "=1.0.0"
pcf85063a = "=0.1.1"
rust-mqtt = { version = "=0.4.1", features = ["alloc"] }
serde = { version = "=1.0.229", default-features = false, features = ["derive"] }
serde-json-core = "=0.6.0"
sntpc = { version = "=0.8.1", default-features = false }
sntpc-net-embassy = "=0.8.0"
static_cell = "=2.1.1"
time = { version = "=0.3.55", default-features = false }
u8g2-fonts = { version = "=0.7.2", features = ["embedded_graphics_textstyle"] }
uc8151 = "=0.2.0"
