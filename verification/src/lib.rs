pub mod app;
pub mod clipboard;
pub mod clipboard_files;
pub mod config;
pub mod exec_bridge;
pub mod input;
pub mod ipc;
pub mod keyboard_tap;
pub mod link;
pub mod protocol;
pub mod shell_channel;
pub mod text;
