[package]
name = "diem_accounts"
version = "0.1.0"
edition = "2021"
publish = false

[dependencies]
anyhow = "1"
bcs = "0.1"
diem-types = "0.0.3"
move-core-types = "0.0.3"
once_cell = "1"
serde = { version = "1", features = ["derive"] }
serde_json = "1"
warp = "0.3"
