//! The decisions of a desktop gateway supervisor: where the gateway listens,
//! how a liveness probe is judged, which proxy environment the gateway is
//! started with, and how the supervised process is tracked.

pub mod command;
pub mod commands;
pub mod config;
pub mod desktop;
pub mod health;
pub mod monitor;
pub mod paths;
pub mod proxy;
pub mod setup;
pub mod shell;
pub mod supervisor;
pub mod text;
