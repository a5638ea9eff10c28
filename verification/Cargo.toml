[package]
name = "matrix_rain"
version = "0.1.0"
edition = "2021"
publish = false

[dependencies]
anyhow = "1"
app_dirs = "1"
csscolorparser = "0.6"
dirs = "4"
fast_image_resize = "2"
font-kit = "*"
image = "0.24"
notify = "*"
once_cell = "1"
rand = "0.8"
raqote = "0.8"
serde = { version = "1", features = ["derive"] }
slint = { version = "0.3", default-features = false, features = ["std", "compat-0-3-0"] }
softbuffer = "0.1"
toml = "0.5"
winit = "0.27"
