[package]
name = "sg_print"
version = "0.1.0"
edition = "2021"
publish = false

[dependencies]
anyhow = "=1.0.104"
ast-grep-config = "=0.51.0"
ast-grep-core = "=0.51.0"
ast-grep-language = "=0.51.0"
codespan-reporting = "=0.11.1"
