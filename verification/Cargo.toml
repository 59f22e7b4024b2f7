[package]
name = "lemmy_bb"
version = "0.1.0"
edition = "2021"
publish = false

[dependencies]
anyhow = "1"
chrono = "0.4"
comrak = { version = "*", default-features = false }
deser-hjson = "*"
env_logger = { version = "*", default-features = false }
futures = "0.3"
itertools = "*"
json-gettext = "*"
lemmy_api_common = { version = "0.17", default-features = false }
log = "0.4"
once_cell = "1"
rand = "0.8"
reqwest = { version = "0.12", default-features = false, features = ["json", "multipart"] }
rocket = "*"
rocket_dyn_templates = { version = "*", features = ["handlebars"] }
serde = { version = "1", features = ["derive"] }
serde_json = "1"
typed-builder = "*"
url = "2"
