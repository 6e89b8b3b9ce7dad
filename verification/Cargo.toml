[package]
name = "wlan_temp_sensor"
version = "0.1.0"
edition = "2021"
publish = false

[dependencies]
cortex-m = "=0.7.10"
cortex-m-rt = "=0.7.7"
dht-sensor = "=0.2.1"
display-interface = "=0.4.1"
embedded-graphics = "=0.7.1"
embedded-hal = "=0.2.7"
fugit = "=0.3.9"
rp-pico = "=0.7.0"
rp2040-hal = "=0.8.2"
ssd1306 = "=0.7.1"
