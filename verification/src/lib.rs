//! Decision logic behind the desktop app's IPC command surface.
#![allow(unused_imports)]

pub mod text;
pub mod redaction;
pub mod error;
pub mod store;
pub mod databases;
pub mod mysql_init;
pub mod apply;
pub mod metrics;
pub mod rescan;
pub mod install;
pub mod web_server;
pub mod logs;
pub mod packages;
pub mod sites;
pub mod php;
pub mod rows;
pub mod clock;
