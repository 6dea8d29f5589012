//! Verified core of the Sideblinder joystick bridge for the Microsoft
//! Sidewinder Force Feedback 2: HID report parsing, force-feedback report
//! construction, the driver-side report queues, the GUI wire protocol, the
//! capture file format, and the button / hat / layer mapping rules.

pub mod bytes;
pub mod bits;
pub mod input;
pub mod ffb;
pub mod gui_ipc;
pub mod ffb_handler;
pub mod input_report;
pub mod capture;
pub mod config;
pub mod validate;
pub mod driver_ipc;
pub mod bridge;
pub mod hid_transport;
pub mod device;
pub mod enumerate;
pub mod status;
pub mod calibrate;
pub mod text;
pub mod diag;
pub mod gui;
pub mod hid_descriptor;
pub mod toml_patch;
pub mod ioctl;
pub mod dump;
