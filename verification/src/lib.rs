//! Core logic of a bridge between an MQTT broker, a per-topic message log,
//! live web subscribers and a cron-driven script scheduler.

pub mod args;
pub mod config;
pub mod db;
pub mod header;
pub mod ident;
pub mod message;
pub mod mqtt;
pub mod schedule;
pub mod script;
pub mod task;
pub mod text;
pub mod web_console;
