//! Simulated vessel sensors (a position sensor and an orientation sensor) and the
//! pipeline that advances their state and fans every update out to live
//! subscribers and to a publish/subscribe broker.
//!
//! All angles are fixed-point microdegrees, speeds are thousandths of a knot and
//! intervals are milliseconds; see [`units`].
pub mod units;
pub mod config;
pub mod gps_data;
pub mod gyro_data;
pub mod errors;
pub mod message_data;
pub mod net;
pub mod gps_calculate;
pub mod gyro_calculate;
pub mod mqtt_manager;
pub mod gps_controller;
pub mod gyro_controller;
pub mod services;
