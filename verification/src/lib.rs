//! Adaptive refresh-rate control for variable-refresh panels.

pub mod battery;
pub mod clock;
pub mod config;
pub mod control_loop;
pub mod core_logic;
pub mod display_control;
pub mod error;
pub mod fps_monitor;
pub mod guarantees;
pub mod ipc_server;
pub mod json;
pub mod logging;
pub mod metrics;
pub mod monitor_detect;
pub mod profiles;
pub mod rate;
pub mod rolling;
pub mod stats;
pub mod text;
