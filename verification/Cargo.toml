[package]
name = "todo_drawer"
version = "0.1.0"
edition = "2021"
publish = false

[dependencies]
uuid = { version = "=1.27.0", features = ["v4"] }
iced = { version = "=0.14.0", features = ["advanced"] }
iced_anim = "=0.3.1"
iced_aw = "=0.14.1"
lucide-icons = { version = "=1.51.0", features = ["iced"] }
