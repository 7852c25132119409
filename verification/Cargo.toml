[package]
name = "astra"
version = "0.1.0"
edition = "2021"
publish = false

[dependencies]
clap = { version = "4", features = ["derive"] }
clap_complete = "4"
directories = "6"
image = { version = "0.25", default-features = false, features = ["png", "jpeg"] }
num-complex = "0.4"
rand = "0.9"
rayon = "1"
reqwest = { version = "0.12", features = ["blocking", "json"] }
serde = { version = "1", features = ["derive"] }
serde_json = "1"
