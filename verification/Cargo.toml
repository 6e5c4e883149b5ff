[package]
name = "veritas"
version = "0.1.0"
edition = "2021"
publish = false

[dependencies]
patternscan = "*"
anyhow = "*"
log = "*"
serde = { version = "*", features = ["derive"] }
serde_json = "*"
tokio = { version = "*", features = ["rt-multi-thread", "sync", "macros"] }
axum = "*"
axum-server = "*"
axum-embed = "*"
rust-embed = "*"
socketioxide = "*"
futures-util = "*"
tower-http = { version = "*", features = ["cors"] }
retour = { version = "*", features = ["static-detour"] }
microseh = "*"
windows = { version = "*", features = ["Win32_Foundation", "Win32_System_LibraryLoader", "Win32_System_ProcessStatus", "Win32_System_Threading", "Win32_System_Console", "Win32_UI_WindowsAndMessaging", "Win32_UI_Input_KeyboardAndMouse", "Win32_Graphics_Direct3D", "Win32_Graphics_Direct3D11", "Win32_Graphics_Dxgi", "Win32_Graphics_Dxgi_Common"] }
egui = "*"
egui_plot = "*"
egui_logger = "*"
slog = "*"
slog-term = "*"
ctor = "*"
function_name = "*"
paste = "*"
rust-i18n = "*"
