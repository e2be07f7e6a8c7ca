[package]
name = "simple_ds18b20_temp_sensor"
version = "0.1.0"
edition = "2021"
publish = false

[dependencies]
anyhow = "=1.0.104"
esp-idf-svc = "0.51"
esp-idf-sys = "0.36"
log = "=0.4.34"
