[package]
name = "astra_os"
version = "0.1.0"
edition = "2021"
publish = false

[dependencies]
ansi_rgb = "=0.2.0"
bootloader = "=0.9.35"
lazy_static = { version = "=1.5.1", features = ["spin_no_std"] }
pic8259_simple = "=0.2.0"
spin = "=0.5.2"
uart_16550 = "=0.2.19"
volatile = "=0.2.7"
x86_64 = { version = "=0.14.13", default-features = false, features = ["instructions"] }
