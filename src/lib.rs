//! Capture and synchronization of simulation telemetry and screen frames:
//! the telemetry record decoder, the shared-channel handshake, the frame
//! loop's decisions, the engine that groups items into frame batches, and
//! the registry that supervises the capture services.

pub mod handshake;
pub mod screencapture;
pub mod services;
pub mod synchronization;
pub mod telemetry;
pub mod utils;

pub use services::{Input, InputProcessMethod, InputType, Process, ServiceError, ServiceType, Services};
pub use utils::{check_last_error, str_to_wstring};
