[package]
name = "musicbrainz"
version = "0.1.0"
edition = "2021"
publish = false

[dependencies]
sxd-document = "0.3"
sxd-xpath = "0.4"
uuid = "1"
hyper = "0.10"
url = "1"
