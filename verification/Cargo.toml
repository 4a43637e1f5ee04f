[package]
name = "esp_idf_matter"
version = "0.1.0"
edition = "2021"
publish = false

[dependencies]
async-io = "2"
edge-nal = "0.5"
edge-nal-std = "0.5"
embassy-futures = "0.1"
embassy-sync = "0.7"
embassy-time = "0.4"
embedded-svc = "0.28"
enumset = "1.1"
esp-idf-svc = "0.51"
heapless = "0.8"
log = "0.4"
