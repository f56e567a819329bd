//! A verified model of a capture-session engine: the start/stop state
//! machine, single-slot frame channel, change-metadata growth policy and
//! frame-byte extraction that drive screen and camera capture.

pub mod camera;
pub mod change_metadata;
pub mod channel;
pub mod device_size;
pub mod errors;
pub mod frame_bytes;
pub mod guard;
pub mod monitor;
pub mod monitor_info;
pub mod output;
pub mod session;
