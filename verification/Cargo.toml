[package]
name = "sct_reader"
version = "0.1.0"
edition = "2021"
publish = false

[dependencies]
anyhow = "=1.0.104"
aviation_calc_util = "=2.13.2"
directories = "=6.0.0"
flate2 = "=1.1.10"
geojson = "=0.24.2"
serde = { version = "=1.0.229", features = ["derive"] }
serde_json = "=1.0.154"
tar = "=0.4.46"
uuid = { version = "=1.29.0", features = ["v4"] }
