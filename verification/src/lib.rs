//! A verified core for an ASCOM Alpaca driver of the Sky-Watcher Star Adventurer mount.
pub mod enums;
pub mod errors;
pub mod motion;
pub mod motor;
pub mod ascom_state;
pub mod tasks;
pub mod long_tasks;
pub mod connection;
pub mod text;
pub mod config;
pub mod guide;
pub mod mount;
pub mod controller;
pub mod request;
pub mod response;
pub mod motion_state;
pub mod laws;
