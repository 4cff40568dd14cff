[package]
name = "gmod_hook"
version = "0.1.0"
edition = "2021"
publish = false

[dependencies]
chrono = "0.4"
dll-syringe = "*"
eyre = "0.6"
gmod = "*"
libc = "0.2"
libloading = "*"
log = "0.4"
windows = { version = "0.52", features = ["Win32_Foundation", "Win32_Security", "Win32_System_Threading", "Win32_System_LibraryLoader", "Win32_System_Memory", "Win32_System_Diagnostics_Debug", "Win32_System_ProcessStatus", "Win32_System_SystemInformation", "Wdk_System_Threading"] }
