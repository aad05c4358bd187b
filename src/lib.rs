//! Identity resolution for USB serial devices: matching live device
//! descriptors against user-configured alias entries, checking a
//! configuration for conflicting entries, and deciding when a monitored
//! device list has to be shown again.

pub mod monitor;
pub mod port;
pub mod resolve;
pub mod settings;
pub mod text;

pub use monitor::ChangeDetector;
pub use port::{ComPort, DeviceDescriptor, FzyEq};
pub use resolve::{AliasLookup, PortSummary};
pub use settings::{validate_settings, ApplicationSettings, Settings, SettingsError};
pub use text::remove_last_word;
