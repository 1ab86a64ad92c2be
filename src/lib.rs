//! Fan-speed control for Argon40 single-board-computer cases.
//!
//! The library holds the control logic: temperature smoothing, the fan curve,
//! the cooldown hysteresis and the per-case I2C command encoding. Reading the
//! CPU temperature and writing to the I2C bus are left to the caller, which
//! hands the library plain values and performs the commands it returns.
pub mod case;
pub mod filter;
pub mod config;
pub mod curve;
pub mod hysteresis;
pub mod controller;

pub use case::{ArgonCase, ArgonV2, ArgonV3};
pub use config::{Args, Config, ConfigError, FanCurvePoint};
pub use controller::FanController;
