[package]
name = "photo_book"
version = "0.1.0"
edition = "2021"
publish = false

[dependencies]
image = "0.24"
printpdf = { version = "0.7", features = ["embedded_images"] }
kamadak-exif = "*"
walkdir = "2"
clap = "4"
tempdir = "0.3"
