//! Output routing, volume control planning and daemon supervision logic for an
//! HDMI / DisplayPort audio router, with machine-checked contracts.
pub mod activity;
pub mod activity_event_tap;
pub mod apply;
pub mod cli;
pub mod config;
pub mod coreaudio_active;
pub mod coreaudio_display;
pub mod daemon;
pub mod device_select;
pub mod display;
pub mod eqmac;
pub mod error;
pub mod native_driver;
pub mod native_driver_hal_smoke;
pub mod network;
pub mod hal;
pub mod hal_plugin;
pub mod json;
pub mod hdmi_displayport_volume_control;
pub mod install_command;
pub mod launchd;
pub mod list_fmt;
pub mod logging;
pub mod output_device;
pub mod passthrough;
pub mod picker;
pub mod picker_command;
pub mod policy;
pub mod privacy_permissions;
pub mod resume_command;
pub mod process_detect;
pub mod scalar_webapi_device;
pub mod system_default;
pub mod text;
pub mod transport;
pub mod uninstall_command;
pub mod version;

pub use error::RustyJackError;
