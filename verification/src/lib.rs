//! winbridge: the host side of running the Windows KakaoTalk client in a libvirt VM and showing
//! it as a Linux app over RDP. The crate holds the manager's decisions and formats: VM
//! lifecycle steps, guest agent requests and replies, the doctor's report, RDP input mapping and
//! session steps, the clipboard, the tray menus, desktop entries, configuration and the
//! diagnostic bundle.
pub mod text;
pub mod error;
pub mod cli;
pub mod config;
pub mod desktop;
pub mod vm;
pub mod doctor;
pub mod rdp;
pub mod lifecycle;
pub mod bundle;
pub mod clipboard;
pub mod tray;
pub mod session;
pub mod tls;
