[package]
name = "pi_extender"
version = "0.1.0"
edition = "2021"
publish = false

[dependencies]
chrono = { version = "=0.4.45", default-features = false, features = ["now"] }
dotenv = "=0.15.0"
ferris-says = "=0.3.2"
hsh = "=0.0.10"
jsonwebtoken = { version = "=9.3.1", default-features = false }
local-ip-address = "=0.6.13"
rocket = { version = "=0.5.2", default-features = false }
rocket-include-handlebars = "=0.14.0"
serde_json = "=1.0.154"
sled = "=0.34.7"
sysinfo = { version = "=0.29.11", default-features = false }
# ferris-says wraps the banner with textwrap. Held at the release before
# textwrap took on ICU segmentation data, which the banner has no use for.
textwrap = "=0.16.1"
waifai = "=0.4.3"
