//! A DLNA/UPnP media server library: configuration, platform detection
//! parsers, file-system rules, media scanning decisions and UPnP XML.
use vstd::prelude::*;

pub mod text;
pub mod ip;
pub mod platform;
pub mod platform_error;
pub mod path;
pub mod clock;
pub mod filesystem;
pub mod windows_fs;
pub mod platform_config;
pub mod config;
pub mod debug_fmt;
pub mod config_report;
pub mod config_advice;
pub mod database;
pub mod media;
pub mod linux_net;
pub mod macos_net;
pub mod windows_net;
pub mod network;
pub mod app_error;
pub mod upnp;
pub mod watcher;
pub mod operation_queue;
pub mod library;
pub mod adaptation;
pub mod backups;
pub mod ordering;
pub mod browse;
pub mod diagnostics;
pub mod diagnostic_report;
pub mod system_info;
pub mod security;
pub mod status_log;

verus! {

} // verus!
