[package]
name = "static_serve"
version = "0.1.0"
edition = "2021"
publish = false

[dependencies]
TinyUFO = "*"
bstr = "*"
mime_guess = "*"
bytesize = "*"
humantime = "*"
urlencoding = "*"
url = "*"
opendal = { version = "*", default-features = false, features = ["services-fs", "services-s3", "services-ftp", "services-gridfs", "layers-mime-guess"] }
axum = "*"
tokio = { version = "*", features = ["full"] }
tokio-util = { version = "*", features = ["compat", "io"] }
tower = { version = "*", features = ["timeout"] }
tower-http = { version = "*", features = ["compression-full"] }
tracing = "*"
tracing-subscriber = { version = "*", features = ["fmt", "time", "local-time"] }
time = { version = "*", features = ["local-offset", "formatting"] }
num_cpus = "*"
once_cell = "*"
snafu = "*"
