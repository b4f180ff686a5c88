//! Register-level drivers for three I2C environmental sensors: a
//! temperature/pressure chip (BMP280), a volatile-organic-compound/CO2 chip
//! (CCS811), and a simple temperature chip (TMP102).
//!
//! The heart of the crate is the sensor protocol and compensation engine: the
//! calibration-aware fixed-point transforms that turn raw register bytes into
//! physical units, and the lifecycle state machine that brings the air-quality
//! chip from power-on to a steady sampling state. All of that logic is
//! verified. The bus itself is reached through the [`transport::Transport`]
//! trait, of which nothing is assumed: every contract here holds whatever a
//! bus exchange returns.

pub mod bmp280;
pub mod ccs811;
pub mod fixmath;
pub mod tmp102;
pub mod transport;
