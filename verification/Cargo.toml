[package]
name = "map_plugin"
version = "0.1.0"
edition = "2021"
publish = false

[dependencies]
bevy = { version = "=0.5.0", default-features = false, features = ["render"] }
bevy-inspector-egui = { version = "=0.5.1", default-features = false }
# Not called. bevy's derive crates use items of `syn` that need its `full`
# feature without asking for it; this macro crate asks for it.
ndk-macro = "=0.2.0"
