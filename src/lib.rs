//! Background transfer engine and single-instance coordination for a desktop
//! game launcher.
//!
//! The I/O itself (HTTP, files, windows) is driven by the host application;
//! this library holds the decisions: which progress events are emitted, when a
//! transfer fails and with what error, and how a process starts depending on
//! whether it holds the instance lock.
pub mod error;
pub mod progress;
pub mod download;
pub mod upload;
pub mod instance;
pub mod window;
pub mod menu;
pub mod game;
