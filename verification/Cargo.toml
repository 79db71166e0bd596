[package]
name = "wifi_menu"
version = "0.1.0"
edition = "2021"
publish = false

[dependencies]
ctrlc = "3"
embedded-graphics = "0.6"
linux-embedded-hal = { version = "0.3", default-features = false }
rppal = "0.14"
ssd1306 = "0.4"
