[package]
name = "gamlss_family"
version = "0.1.0"
edition = "2021"
publish = false

[dependencies]
gamlss-core = "*"
gamlss-special = "*"
rand = "*"
rand_distr = "*"

[dev-dependencies]
approx = "*"
