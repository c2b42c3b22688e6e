[package]
name = "interval_domain"
version = "0.1.0"
edition = "2021"
publish = false

[dependencies]
rug = { version = "=1.19.2", default-features = false, features = ["integer"] }
# rug's own GMP binding, named only to select `use-system-libs`: the system
# GMP here is 6.2.1, which this release line supports. It holds none of the
# library's work.
gmp-mpfr-sys = { version = "=1.5.3", default-features = false, features = ["use-system-libs"] }
