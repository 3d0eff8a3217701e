//! Device-specification compiler and configuration engine for a krun virtual machine.
//!
//! The crate turns the textual `--device` and `--restful-uri` arguments into typed
//! configuration values, decides in which order and with which parameters the virtual
//! machine backend is to be configured, and answers the status protocol. Every function
//! carries a contract over a mathematical model of its arguments.

pub mod backend;
pub mod bootloader;
pub mod cmdline;
pub mod compositor;
pub mod context;
pub mod error;
pub mod status;
pub mod text;
pub mod timesync;
pub mod virtio;
pub mod wslg;
