[package]
name = "speedometer"
version = "0.1.0"
edition = "2021"
publish = false

[dependencies]
display-interface = "=0.5.0"
display-interface-spi = "=0.5.0"
embedded-graphics-core = "=0.4.1"
embedded-hal = "=1.0.0"
embedded-hal-bus = "=0.2.0"
esp-alloc = "0.5"
esp-backtrace = { version = "0.14", features = ["esp32", "exception-handler", "panic-handler", "println"] }
esp-hal = { version = "0.21", features = ["esp32"] }
esp-println = { version = "0.12", features = ["esp32", "log"] }
log = "=0.4.34"
mipidsi = "=0.8.0"
once_cell = "=1.21.4"

[dev-dependencies]
button-driver = "=0.2.5"
