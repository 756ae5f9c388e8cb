[package]
name = "mini_power_unit"
version = "0.1.0"
edition = "2021"
publish = false

[dependencies]
anyhow = "*"
log = "*"
ap33772s-driver = "*"
embedded-hal = "*"
esp-idf-hal = "*"
esp-idf-svc = "*"
esp-idf-sys = "*"
embedded-svc = "*"
chrono = "*"
ssd1306 = "*"
embedded-graphics = "*"
tinybmp = "*"
toml-cfg = "*"
