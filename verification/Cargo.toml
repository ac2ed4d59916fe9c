[package]
name = "plugin_lua_cygnixy"
version = "0.1.0"
edition = "2021"
publish = false

[dependencies]
control-craft = "*"
cygnixy-plugin-interface = "*"
mlua = "*"
serenity = "*"
tokio = { version = "1", features = ["rt"] }
tracing = "0.1"
