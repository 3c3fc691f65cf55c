[package]
name = "natsort"
version = "0.1.0"
edition = "2021"
publish = false

[dependencies]
grift_unicode = "*"
icu_collator = "2"
icu_locale = "2"
num-bigint = "0.4"
sys-locale = "0.3"
unicode-casefold = "*"
unicode-normalization = "0.1"
