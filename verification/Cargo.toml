[package]
name = "axum_l10n"
version = "0.1.0"
edition = "2021"
publish = false

[dependencies]
unic-langid = "0.9"
http = "1"
axum = "0.8"
tower = "0.5"
serde = "1"
serde_json = "1"
fluent = "0.16"
intl-memoizer = "0.5"
tracing = "0.1"
tera = "1"
