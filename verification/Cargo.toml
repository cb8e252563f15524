[package]
name = "robot_car"
version = "0.1.0"
edition = "2021"
publish = false

[dependencies]
serialport = { version = "=4.10.1", default-features = false }
pancurses = "=0.17.0"
inquire = "=0.7.5"
panic-halt = "1.0.0"
