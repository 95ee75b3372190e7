//! Verified core of the Big8K OLED bring-up tool: timing-configuration
//! encoding and decoding, device and host-network bookkeeping, and the
//! command and result building around them.
pub mod actions;
pub mod adb;
pub mod deploy;
pub mod display_actions;
pub mod framebuffer;
pub mod host_env;
pub mod mipi;
pub mod openclaw;
pub mod presets;
pub mod probe;
pub mod remote_files;
pub mod results;
pub mod sample_bin;
pub mod ssh;
pub mod text;
pub mod timing;
pub mod timing_decode;
pub mod timing_laws;
pub mod uploads;
