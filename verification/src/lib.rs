//! Decision core of a single-instance tray application.
//!
//! The process lives as an icon in the notification area, opens at most one
//! content window on demand, persists two user preferences (run at startup,
//! auto update), performs a one-time bootstrap on first launch, and refuses
//! to start while another instance is running.
//!
//! This crate holds the verified logic of that lifecycle: the tray
//! coordinator state machine, the first-run bootstrap plan, the preference
//! toggles, and the instance-lock model. The platform work itself (native
//! windows, the registry, login items, the update download) is performed by
//! an unverified shell that feeds events to these functions and carries out
//! the actions they return.

pub mod bootstrap;
pub mod coordinator;
pub mod settings;
pub mod singleton;
