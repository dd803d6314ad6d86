[package]
name = "pdf_merger"
version = "0.1.0"
edition = "2021"
publish = false

[dependencies]
lopdf = "0.32"
qpdf = "0.3"
log = "0.4"
env_logger = "0.11"
