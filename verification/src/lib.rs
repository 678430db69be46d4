//! Input daemon core: maps raw potentiometer codes to a calibrated volume,
//! debounces mechanical button samples into clean edges, resolves button
//! edges into playback intents, and supervises the lifecycle of at most one
//! audio playback child process.

pub mod calibration;
pub mod debounce;
pub mod panel;
pub mod supervisor;
