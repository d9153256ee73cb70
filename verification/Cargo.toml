[package]
name = "esp_hal_common"
version = "0.1.0"
edition = "2021"
publish = false

[dependencies]
embedded-hal = { version = "=0.2.7", features = ["unproven"] }
fugit = "=0.3.9"
nb = "=1.1.0"
void = "=1.0.2"
