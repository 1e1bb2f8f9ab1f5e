[package]
name = "rkvm_windows"
version = "0.1.0"
edition = "2021"
publish = false

[dependencies]
async-trait = "=0.1.92"
clap = { version = "=4.6.7", features = ["derive"] }
tokio = { version = "=1.54.1", features = ["rt-multi-thread", "macros", "sync", "time", "io-util", "net", "signal"] }
tracing = "=0.1.44"
windows = { version = "=0.62.2", features = ["Win32_Foundation", "Win32_Security", "Win32_Security_Authorization", "Win32_System_Diagnostics_ToolHelp", "Win32_System_RemoteDesktop", "Win32_System_Threading", "Win32_System_StationsAndDesktops", "Win32_UI_Input_KeyboardAndMouse"] }
windows-core = "=0.62.2"
windows-service = "=0.8.1"

[dev-dependencies]
windows-sys = { version = "=0.61.2", features = ["Win32_UI_Input_KeyboardAndMouse", "Win32_UI_WindowsAndMessaging"] }
