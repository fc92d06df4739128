[package]
name = "vulkan_graph"
version = "0.1.0"
edition = "2021"
publish = false

[dependencies]
uuid = { version = "=1.29.1", features = ["v4"] }
egui_node_graph2 = "=0.7.0"
egui = "=0.29.1"
eframe = { version = "=0.29.1", default-features = false, features = ["default_fonts", "glow", "x11"] }
slotmap = "=1.1.1"
