//! Drivers for three I2C sensors that share one bus: a magnetometer
//! (LIS2MDL), a barometric pressure/temperature sensor (LPS22HH) and a
//! 6-axis inertial sensor (LSM6DSO).
//!
//! The crate models the shared transport explicitly: a [`bus::Bus`] owns a
//! set of simulated register devices, an exclusive-access lock and a
//! byte-level wire trace.  Every transaction runs under the lock, so bytes
//! of two transactions never interleave on the trace; the per-device
//! modules implement the register protocol (identification, configuration,
//! sampling) on top of it, and [`decode`] turns raw little-endian register
//! bytes into exact fixed-point physical readings.

pub mod bus;
pub mod decode;
pub mod driver;
pub mod lis2mdl;
pub mod lps22hh;
pub mod lsm6dso;
