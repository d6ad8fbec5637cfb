[package]
name = "crossdylib"
version = "0.1.0"
edition = "2021"
publish = false

[dependencies]
atomic_refcell = "0.1"
concat-idents = "1.1"
findshlibs = "0.10"
libloading = "0.8"
