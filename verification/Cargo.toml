[package]
name = "hooking"
version = "0.1.0"
edition = "2021"
publish = false

[dependencies]
iced-x86 = "*"
libc = "*"
windows-sys = { version = "*", features = ["Win32_Foundation", "Win32_System_Memory", "Win32_System_LibraryLoader", "Win32_System_SystemInformation"] }
