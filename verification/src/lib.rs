//! Bookkeeping for scheduled backups to cloud storage: when a schedule is
//! next due, and which runs a transfer log records.

pub mod aws;
pub mod byte_size;
pub mod calendar;
pub mod compose;
pub mod config;
pub mod history;
pub mod json;
pub mod listing;
pub mod log_format;
pub mod models;
pub mod os_schedule;
pub mod pattern;
pub mod rclone_config;
pub mod rclone_output;
pub mod reconcile;
pub mod schedule;
pub mod system;
pub mod text;
pub mod tools;
pub mod transfer;
