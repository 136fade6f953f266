//! Verified core of the OMEN-HUB control center: power modes and their
//! hardware definitions, the transactional power engine, CPU energy and
//! platform profile decisions, fan arithmetic and state, and the small
//! parsers and formatters that the daemon, the CLI and the tray share.

pub mod text;
pub mod sysfs;
pub mod power_model;
pub mod cpu_energy;
pub mod power_engine;
pub mod cli;
pub mod tray;
pub mod client;
pub mod ec;
pub mod automation;
pub mod power_service;
pub mod fan;
pub mod assets;
