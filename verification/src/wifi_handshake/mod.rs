//! The daemon that keeps one wireless interface either an access point or a
//! client, and what provisions the device for it.

pub mod config;
pub mod connection;
pub mod debounce;
pub mod installer;
pub mod pattern;
pub mod runtime;
pub mod switcher;
pub mod utils;
pub mod web_server;
pub mod world;
pub mod wpa_manager;
