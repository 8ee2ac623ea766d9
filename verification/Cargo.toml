[package]
name = "the_hat_chooses_the_wizard"
version = "0.1.0"
edition = "2021"
publish = false

[dependencies]
agb = "*"
agb_fixnum = "*"
