[package]
name = "recompress"
version = "0.1.0"
edition = "2021"
publish = false

[dependencies]
async-compression = { version = "*", features = ["tokio", "gzip", "zlib", "deflate", "bzip2", "xz", "zstd"] }
tokio = { version = "*", features = ["io-util", "rt"] }
