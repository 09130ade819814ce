[package]
name = "release_notes"
version = "0.1.0"
edition = "2021"
publish = false

[dependencies]
chrono = "0.4"
iri-string = "0.7"
