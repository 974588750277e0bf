//! Backup, cleanup and restore of the startup-program registry keys around a
//! locale-change reboot.
//!
//! The library decides and the caller acts: every step that touches the
//! registry, the disk or another process is handed out as a request, and the
//! caller hands back what the host replied.

pub mod backup;
pub mod cleanup;
pub mod command;
pub mod config;
pub mod constants;
pub mod failure;
pub mod hive;
pub mod host_model;
pub mod isolation;
pub mod locale;
pub mod notify;
pub mod paths;
pub mod restore;
pub mod schedule;
pub mod simulation;
pub mod text;
pub mod views;
