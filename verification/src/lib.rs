//! An abstraction layer for audio I/O devices.
//!
//! The layer sits between an audio engine, which finds drivers, opens devices
//! and runs the audio thread, and an application that wants to list devices,
//! configure one, and exchange blocks of samples with it.
//!
//! - [`buffer`]: bounds-checked views over blocks of samples.
//! - [`setup`]: the configuration of a device.
//! - [`error`]: the error of a rejected configuration.
//! - [`device`]: the contract of a device, and handles to devices that may be
//!   absent.
//! - [`device_type`]: the contract of a type of driver, and handles likewise.
//! - [`callback`]: the contract of an audio callback, and the lifecycle of a
//!   registered one.
//! - [`runtime`]: who holds the engine, and when it starts and stops.
//! - [`volume`]: the range of the system's gain.
//!
//! Samples, rates and gains are carried as the bit patterns of IEEE 754
//! numbers, so that everything here is integer code.

pub mod buffer;
pub mod callback;
pub mod device;
pub mod device_type;
pub mod error;
pub mod runtime;
pub mod setup;
pub mod volume;
