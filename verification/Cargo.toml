[package]
name = "mqtt_client"
version = "0.1.0"
edition = "2021"
publish = false

[dependencies]
rand = "0.8"
clap = "4"
ctrlc = "3"
env_logger = "0.11"
log = "0.4"
