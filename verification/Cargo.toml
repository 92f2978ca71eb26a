[package]
name = "ipoc_rust"
version = "0.1.0"
edition = "2021"
publish = false

[dependencies]
image = "*"
fast_image_resize = { version = "*", features = ["image"] }
actix-web = { version = "*", default-features = false, features = ["macros"] }
aws-config = { version = "*", default-features = false }
aws-sdk-s3 = { version = "*", default-features = false }
serde = { version = "*", features = ["derive"] }
envy = "*"
env_logger = "*"
log = "*"
futures-util = "*"
cpu-time = "*"
thiserror = "*"
